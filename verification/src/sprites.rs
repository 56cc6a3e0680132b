//! Laws of the sprites of a scanline: which are selected, and which of
//! them is seen at a column.

use vstd::prelude::*;
use crate::ppu_model::{sprite_on_line, PpuModel};

verus! {

/// Of the first `n` sprites of OAM at most ten are selected, and each
/// selected index is below `n`.
pub proof fn lemma_select_sprites(p: PpuModel, n: nat)
    ensures
        p.select_sprites(n).len() <= 10,
        p.select_sprites(n).len() <= n,
        forall|j: int| 0 <= j < p.select_sprites(n).len() ==> #[trigger] p.select_sprites(n)[j] < n,
    decreases n,
{
    if n > 0 {
        lemma_select_sprites(p, (n - 1) as nat);
    }
}

/// The selected sprites are in OAM order, without repetition.
pub proof fn lemma_select_sprites_ordered(p: PpuModel, n: nat)
    requires
        n <= 40,
    ensures
        forall|j: int, k: int|
            0 <= j < k < p.select_sprites(n).len() ==> p.select_sprites(n)[j] < p.select_sprites(
                n,
            )[k],
    decreases n,
{
    if n > 0 {
        lemma_select_sprites_ordered(p, (n - 1) as nat);
        lemma_select_sprites(p, (n - 1) as nat);
    }
}

/// Every selected sprite covers the scanline, and while fewer than ten are
/// selected no sprite on the line is left out.
#[verifier::rlimit(40)]
pub proof fn lemma_select_sprites_on_line(p: PpuModel, n: nat)
    requires
        n <= 40,
    ensures
        forall|j: int|
            0 <= j < p.select_sprites(n).len() ==> sprite_on_line(
                p.entry(#[trigger] p.select_sprites(n)[j] as int),
                p.ly,
                p.sprite_height(),
            ),
        p.select_sprites(n).len() < 10 ==> forall|k: int|
            0 <= k < n && sprite_on_line(p.entry(k), p.ly, p.sprite_height())
                ==> #[trigger] p.select_sprites(n).contains(k as u8),
    decreases n,
{
    if n > 0 {
        let before = p.select_sprites((n - 1) as nat);
        lemma_select_sprites_on_line(p, (n - 1) as nat);
        lemma_select_sprites(p, (n - 1) as nat);
        let now = p.select_sprites(n);
        if now.len() < 10 {
            assert forall|k: int|
                0 <= k < n && sprite_on_line(
                    p.entry(k),
                    p.ly,
                    p.sprite_height(),
                ) implies #[trigger] now.contains(k as u8) by {
                if k < n - 1 {
                    assert(before.contains(k as u8));
                    let j = choose|j: int| 0 <= j < before.len() && before[j] == k as u8;
                    assert(now[j] == k as u8);
                } else {
                    assert(now[now.len() - 1] == k as u8);
                }
            }
        }
    }
}

/// The selected sprites are the first ten on the line: a sprite on the line
/// that is not selected comes after ten selected ones in OAM.
pub proof fn lemma_select_sprites_first_ten(p: PpuModel, n: nat)
    requires
        n <= 40,
    ensures
        forall|k: int|
            0 <= k < n && sprite_on_line(p.entry(k), p.ly, p.sprite_height())
                && !(#[trigger] p.select_sprites(n).contains(k as u8)) ==> p.select_sprites(n).len()
                == 10 && forall|j: int|
                0 <= j < 10 ==> p.select_sprites(n)[j] < k,
    decreases n,
{
    if n > 0 {
        let before = p.select_sprites((n - 1) as nat);
        let now = p.select_sprites(n);
        lemma_select_sprites_first_ten(p, (n - 1) as nat);
        lemma_select_sprites(p, (n - 1) as nat);
        assert forall|k: int|
            0 <= k < n && sprite_on_line(p.entry(k), p.ly, p.sprite_height()) && !(
            #[trigger] now.contains(k as u8)) implies now.len() == 10 && forall|j: int|
            0 <= j < 10 ==> now[j] < k by {
            if k < n - 1 {
                if before.contains(k as u8) {
                    let j = choose|j: int| 0 <= j < before.len() && before[j] == k as u8;
                    assert(now[j] == k as u8);
                }
                assert(!before.contains(k as u8));
                assert(now == before);
            } else {
                if before.len() < 10 {
                    assert(now[now.len() - 1] == k as u8);
                }
                assert(now == before);
            }
        }
    }
}

/// Of the sprites that show at a column, the one seen is drawn over every
/// other: where `top_sprite` names a sprite, it is one of the first `n`
/// selected, it shows at the column, and every other of them that shows
/// there has a higher X, or the same X and a higher OAM index. Where it
/// names none, none of them shows.
#[verifier::rlimit(40)]
pub proof fn lemma_top_sprite(p: PpuModel, x: int, n: nat)
    requires
        n <= p.sprites.len(),
    ensures
        match p.top_sprite(x, n) {
            Some(k) => {
                &&& exists|j: int| 0 <= j < n && p.sprites[j] == k
                &&& p.sprite_shows(k as int, x)
                &&& forall|j: int|
                    0 <= j < n && p.sprite_shows(#[trigger] p.sprites[j] as int, x) && p.sprites[j]
                        != k ==> p.precedes(k as int, p.sprites[j] as int)
            },
            None => forall|j: int| 0 <= j < n ==> !p.sprite_shows(#[trigger] p.sprites[j] as int, x),
        },
    decreases n,
{
    if n > 0 {
        lemma_top_sprite(p, x, (n - 1) as nat);
        let best = p.top_sprite(x, (n - 1) as nat);
        let k = p.sprites[n - 1];
        match p.top_sprite(x, n) {
            Some(top) => {
                if top == k && p.sprite_shows(k as int, x) && (best.is_none() || p.precedes(
                    k as int,
                    best.unwrap() as int,
                )) {
                    assert(p.sprites[n - 1] == top);
                } else {
                    let j = choose|j: int| 0 <= j < n - 1 && p.sprites[j] == top;
                    assert(p.sprites[j] == top);
                }
            },
            None => {},
        }
    }
}

} // verus!
