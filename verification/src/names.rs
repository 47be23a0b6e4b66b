//! Output file naming: each loop index `i` yields one `i.png` file name
//! per output family, and distinct indices yield distinct names.

use vstd::prelude::*;

verus! {

/// The decimal digits of `n`, most significant first, as ASCII bytes.
pub open spec fn dec_bytes(n: nat) -> Seq<u8>
    decreases n,
{
    if n < 10 {
        seq![(48 + n) as u8]
    } else {
        dec_bytes(n / 10).push((48 + n % 10) as u8)
    }
}

/// The file name `{n}.png` as ASCII bytes.
pub open spec fn png_name(n: nat) -> Seq<u8> {
    dec_bytes(n) + seq![46u8, 112u8, 110u8, 103u8]
}

/// The decimal digits of `n`, most significant first, as ASCII bytes.
pub fn dec_digits(n: u64) -> (r: Vec<u8>)
    ensures
        r@ == dec_bytes(n as nat),
    decreases n,
{
    if n < 10 {
        let mut r: Vec<u8> = Vec::new();
        r.push(48 + (n as u8));
        assert(r@ =~= dec_bytes(n as nat));
        r
    } else {
        let mut r: Vec<u8> = dec_digits(n / 10);
        r.push(48 + ((n % 10) as u8));
        assert(r@ =~= dec_bytes(n as nat));
        r
    }
}

/// The file name under which the output of loop index `i` is written in
/// each of the three output directories.
pub fn output_name(i: u64) -> (r: Vec<u8>)
    ensures
        r@ == png_name(i as nat),
{
    let mut r: Vec<u8> = dec_digits(i);
    r.push(46);
    r.push(112);
    r.push(110);
    r.push(103);
    assert(r@ =~= png_name(i as nat));
    r
}

/// The output subdirectory of the poster atlases, relative to the output
/// root.
pub fn posters_dir() -> (r: &'static str)
    ensures
        r@ == "BepInEx/plugins/LethalPosters/posters"@,
{
    "BepInEx/plugins/LethalPosters/posters"
}

/// The output subdirectory of the tip thumbnails, relative to the output
/// root.
pub fn tips_dir() -> (r: &'static str)
    ensures
        r@ == "BepInEx/plugins/LethalPosters/tips"@,
{
    "BepInEx/plugins/LethalPosters/tips"
}

/// The output subdirectory of the paintings, relative to the output root.
pub fn paintings_dir() -> (r: &'static str)
    ensures
        r@ == "BepInEx/plugins/LethalPaintings/paintings"@,
{
    "BepInEx/plugins/LethalPaintings/paintings"
}

/// A decimal image always has at least one digit.
proof fn lemma_dec_bytes_nonempty(n: nat)
    ensures
        dec_bytes(n).len() >= 1,
    decreases n,
{
    if n >= 10 {
        lemma_dec_bytes_nonempty(n / 10);
    }
}

/// Distinct numbers have distinct decimal images.
proof fn lemma_dec_bytes_injective(a: nat, b: nat)
    requires
        dec_bytes(a) == dec_bytes(b),
    ensures
        a == b,
    decreases a + b,
{
    if a < 10 && b < 10 {
        assert(dec_bytes(a)[0] == (48 + a) as u8);
        assert(dec_bytes(b)[0] == (48 + b) as u8);
    } else if a < 10 {
        lemma_dec_bytes_nonempty(b / 10);
        assert(dec_bytes(a).len() == 1);
        assert(dec_bytes(b).len() >= 2);
    } else if b < 10 {
        lemma_dec_bytes_nonempty(a / 10);
        assert(dec_bytes(b).len() == 1);
        assert(dec_bytes(a).len() >= 2);
    } else {
        let da = dec_bytes(a / 10);
        let db = dec_bytes(b / 10);
        assert(dec_bytes(a) == da.push((48 + a % 10) as u8));
        assert(dec_bytes(b) == db.push((48 + b % 10) as u8));
        assert(dec_bytes(a).last() == (48 + a % 10) as u8);
        assert(dec_bytes(b).last() == (48 + b % 10) as u8);
        assert(a % 10 == b % 10);
        assert(da =~= db) by {
            assert(da.len() == db.len());
            assert(forall|j: int|
                0 <= j < da.len() ==> #[trigger] da[j] == dec_bytes(a)[j] == dec_bytes(b)[j]
                    == db[j]);
        }
        lemma_dec_bytes_injective(a / 10, b / 10);
        vstd::arithmetic::div_mod::lemma_fundamental_div_mod(a as int, 10);
        vstd::arithmetic::div_mod::lemma_fundamental_div_mod(b as int, 10);
    }
}

/// Naming law: distinct loop indices name distinct output files, so a run
/// over `n` decoded inputs writes `n` distinct files into each of the
/// three output directories.
pub proof fn lemma_output_names_distinct(a: nat, b: nat)
    requires
        a != b,
    ensures
        png_name(a) != png_name(b),
{
    if png_name(a) == png_name(b) {
        assert(png_name(a).len() == dec_bytes(a).len() + 4);
        assert(png_name(b).len() == dec_bytes(b).len() + 4);
        assert(dec_bytes(a) =~= dec_bytes(b)) by {
            assert(dec_bytes(a).len() == dec_bytes(b).len());
            assert(forall|j: int|
                0 <= j < dec_bytes(a).len() ==> #[trigger] dec_bytes(a)[j] == png_name(a)[j]
                    == png_name(b)[j] == dec_bytes(b)[j]);
        }
        lemma_dec_bytes_injective(a, b);
    }
}

} // verus!
