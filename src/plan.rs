use vstd::prelude::*;

use crate::channels::Channels;

verus! {

/// The files a pack bundle may hold.
#[derive(Debug, Clone, Copy, PartialEq, Eq, Structural)]
pub enum Artifact {
    Manifest,
    Albedo,
    Normal,
    MaterialPack,
}

/// Which artifacts of a bundle are already on disk.
#[derive(Debug, Clone, Copy, PartialEq, Eq, Structural)]
pub struct Existing {
    pub manifest: bool,
    pub albedo: bool,
    pub normal: bool,
    pub material_pack: bool,
}

/// Which artifacts of a bundle are to be (re)generated in this run.
#[derive(Debug, Clone, Copy, PartialEq, Eq, Structural)]
pub struct PackPlan {
    pub manifest: bool,
    pub albedo: bool,
    pub normal: bool,
    pub material_pack: bool,
}

pub open spec fn regenerate(force: bool, exists: bool) -> bool {
    force || !exists
}

/// Whether any of the four slots of the packed material image is filled.
pub open spec fn has_material_inputs(c: Channels) -> bool {
    c.metalness is Some || c.ambient_occlusion is Some || c.displacement is Some
        || c.roughness is Some
}

/// Each artifact is decided on its own: it is produced when its inputs are
/// present and it is either missing or regeneration is forced. The manifest
/// needs no input.
pub open spec fn planned(c: Channels, e: Existing, force: bool) -> PackPlan {
    PackPlan {
        manifest: regenerate(force, e.manifest),
        albedo: c.albedo is Some && regenerate(force, e.albedo),
        normal: c.normal is Some && regenerate(force, e.normal),
        material_pack: has_material_inputs(c) && regenerate(force, e.material_pack),
    }
}

/// What is on disk after a plan has been carried out.
pub open spec fn after_run(e: Existing, p: PackPlan) -> Existing {
    Existing {
        manifest: e.manifest || p.manifest,
        albedo: e.albedo || p.albedo,
        normal: e.normal || p.normal,
        material_pack: e.material_pack || p.material_pack,
    }
}

pub open spec fn writes_nothing(p: PackPlan) -> bool {
    !p.manifest && !p.albedo && !p.normal && !p.material_pack
}

/// Whether an artifact must be written: when forced or when it is missing.
pub fn should_write(force: bool, exists: bool) -> (r: bool)
    ensures
        r == regenerate(force, exists),
{
    force || !exists
}

/// Decides, artifact by artifact, what a pack run produces for one item.
pub fn plan_pack(c: &Channels, e: &Existing, force: bool) -> (r: PackPlan)
    ensures
        r == planned(*c, *e, force),
{
    let material = c.metalness.is_some() || c.ambient_occlusion.is_some()
        || c.displacement.is_some() || c.roughness.is_some();
    PackPlan {
        manifest: should_write(force, e.manifest),
        albedo: c.albedo.is_some() && should_write(force, e.albedo),
        normal: c.normal.is_some() && should_write(force, e.normal),
        material_pack: material && should_write(force, e.material_pack),
    }
}

/// A second unforced run over the same input, after the first run's outputs
/// were committed, writes nothing.
pub proof fn lemma_second_run_writes_nothing(c: Channels, e: Existing, force: bool)
    ensures
        writes_nothing(planned(c, after_run(e, planned(c, e, force)), false)),
{
}

/// Once every artifact exists, an unforced run writes nothing; a forced run
/// rewrites the manifest and every artifact whose inputs are present.
pub proof fn lemma_force_decides(c: Channels)
    ensures
        writes_nothing(
            planned(
                c,
                Existing { manifest: true, albedo: true, normal: true, material_pack: true },
                false,
            ),
        ),
        forall|e: Existing|
            #![trigger planned(c, e, true)]
            planned(c, e, true) == (PackPlan {
                manifest: true,
                albedo: c.albedo is Some,
                normal: c.normal is Some,
                material_pack: has_material_inputs(c),
            }),
{
}

pub open spec fn digit_char(d: nat) -> char {
    if d == 0 {
        '0'
    } else if d == 1 {
        '1'
    } else if d == 2 {
        '2'
    } else if d == 3 {
        '3'
    } else if d == 4 {
        '4'
    } else if d == 5 {
        '5'
    } else if d == 6 {
        '6'
    } else if d == 7 {
        '7'
    } else if d == 8 {
        '8'
    } else {
        '9'
    }
}

/// Decimal notation of a natural number, without leading zeros.
pub open spec fn decimal(n: nat) -> Seq<char>
    decreases n,
{
    if n < 10 {
        seq![digit_char(n)]
    } else {
        decimal(n / 10) + seq![digit_char(n % 10)]
    }
}

/// The scratch file name of a worker: `<prefix>.tmp` when items run one by
/// one, `<prefix><slot>.tmp` for worker slot `slot` of a pool.
pub open spec fn scratch_name(prefix: Seq<char>, worker: Option<usize>) -> Seq<char> {
    match worker {
        None => prefix + ".tmp"@,
        Some(i) => prefix + decimal(i as nat) + ".tmp"@,
    }
}

fn digit(d: usize) -> (r: &'static str)
    requires
        d < 10,
    ensures
        r@ == seq![digit_char(d as nat)],
{
    proof {
        reveal_strlit("0");
        reveal_strlit("1");
        reveal_strlit("2");
        reveal_strlit("3");
        reveal_strlit("4");
        reveal_strlit("5");
        reveal_strlit("6");
        reveal_strlit("7");
        reveal_strlit("8");
        reveal_strlit("9");
    }
    if d == 0 {
        "0"
    } else if d == 1 {
        "1"
    } else if d == 2 {
        "2"
    } else if d == 3 {
        "3"
    } else if d == 4 {
        "4"
    } else if d == 5 {
        "5"
    } else if d == 6 {
        "6"
    } else if d == 7 {
        "7"
    } else if d == 8 {
        "8"
    } else {
        "9"
    }
}

/// Decimal notation of `n`.
pub fn decimal_string(n: usize) -> (r: String)
    ensures
        r@ == decimal(n as nat),
    decreases n,
{
    if n < 10 {
        String::from_str(digit(n))
    } else {
        let mut s = decimal_string(n / 10);
        s.append(digit(n % 10));
        s
    }
}

/// Name of the scratch file that a worker writes before renaming into place.
pub fn scratch_file_name(prefix: &str, worker: Option<usize>) -> (r: String)
    ensures
        r@ == scratch_name(prefix@, worker),
{
    let mut s = String::from_str(prefix);
    match worker {
        Some(i) => {
            let d = decimal_string(i);
            s.append(d.as_str());
        },
        None => {},
    }
    s.append(".tmp");
    s
}

proof fn lemma_decimal_nonempty(n: nat)
    ensures
        decimal(n).len() >= 1,
        n >= 10 ==> decimal(n).len() >= 2,
    decreases n,
{
    if n >= 10 {
        lemma_decimal_nonempty(n / 10);
    }
}

proof fn lemma_digit_char_injective(a: nat, b: nat)
    requires
        a < 10,
        b < 10,
        digit_char(a) == digit_char(b),
    ensures
        a == b,
{
}

/// Different numbers have different decimal notations.
pub proof fn lemma_decimal_injective(a: nat, b: nat)
    requires
        decimal(a) == decimal(b),
    ensures
        a == b,
    decreases a,
{
    lemma_decimal_nonempty(a);
    lemma_decimal_nonempty(b);
    if a < 10 && b < 10 {
        assert(decimal(a)[0] == digit_char(a));
        assert(decimal(b)[0] == digit_char(b));
        lemma_digit_char_injective(a, b);
    } else if a >= 10 && b >= 10 {
        let da = decimal(a);
        let db = decimal(b);
        assert(da[da.len() - 1] == digit_char(a % 10));
        assert(db[db.len() - 1] == digit_char(b % 10));
        lemma_digit_char_injective(a % 10, b % 10);
        assert(decimal(a / 10) =~= da.subrange(0, da.len() - 1));
        assert(decimal(b / 10) =~= db.subrange(0, db.len() - 1));
        lemma_decimal_injective(a / 10, b / 10);
    }
}

/// Workers of one pool never share a scratch file: distinct slots give
/// distinct scratch names.
pub proof fn lemma_scratch_isolation(prefix: Seq<char>, i: usize, j: usize)
    requires
        i != j,
    ensures
        scratch_name(prefix, Some(i)) != scratch_name(prefix, Some(j)),
{
    if scratch_name(prefix, Some(i)) == scratch_name(prefix, Some(j)) {
        let a = scratch_name(prefix, Some(i));
        let b = scratch_name(prefix, Some(j));
        let di = decimal(i as nat);
        let dj = decimal(j as nat);
        let t = ".tmp"@;
        assert(a.len() == b.len());
        assert(di.len() == dj.len());
        assert(di =~= a.subrange(prefix.len() as int, (prefix.len() + di.len()) as int));
        assert(dj =~= b.subrange(prefix.len() as int, (prefix.len() + dj.len()) as int));
        lemma_decimal_injective(i as nat, j as nat);
    }
}

} // verus!
