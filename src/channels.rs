use vstd::prelude::*;

use vstd::string::StringSliceAdditionalSpecFns;

use crate::error::ApplicationError;

verus! {

/// Which tangent-space convention the normal-map slot accepts.
#[derive(Debug, Clone, Copy, PartialEq, Eq, Structural)]
pub enum NormalMapType {
    OpenGL,
    Direct3D,
}

/// The seven logical texture roles of a material.
#[derive(Debug, Clone, Copy, PartialEq, Eq, Structural)]
pub enum ChannelSlot {
    Albedo,
    Opacity,
    Normal,
    Metalness,
    Roughness,
    AmbientOcclusion,
    Displacement,
}

/// For each slot, the index of the archive entry that fills it, if any.
#[derive(Debug, Clone, Copy, PartialEq, Eq, Structural)]
pub struct Channels {
    pub albedo: Option<usize>,
    pub opacity: Option<usize>,
    pub normal: Option<usize>,
    pub metalness: Option<usize>,
    pub roughness: Option<usize>,
    pub ambient_occlusion: Option<usize>,
    pub displacement: Option<usize>,
}

pub open spec fn slot_entry(c: Channels, slot: ChannelSlot) -> Option<usize> {
    match slot {
        ChannelSlot::Albedo => c.albedo,
        ChannelSlot::Opacity => c.opacity,
        ChannelSlot::Normal => c.normal,
        ChannelSlot::Metalness => c.metalness,
        ChannelSlot::Roughness => c.roughness,
        ChannelSlot::AmbientOcclusion => c.ambient_occlusion,
        ChannelSlot::Displacement => c.displacement,
    }
}

/// Length of the part of an entry name before its first `.`.
pub open spec fn name_end(b: Seq<u8>) -> nat
    decreases b.len(),
{
    if b.len() == 0 || b[0] == 46u8 {
        0
    } else {
        1 + name_end(b.drop_first())
    }
}

/// The logical name of an entry: everything before the first `.`.
pub open spec fn logical_name(b: Seq<u8>) -> Seq<u8> {
    b.take(name_end(b) as int)
}

pub open spec fn ends_with(b: Seq<u8>, suffix: Seq<u8>) -> bool {
    suffix.len() <= b.len() && b.subrange(b.len() - suffix.len(), b.len() as int) == suffix
}

pub open spec fn has_suffix(name: Seq<u8>, suffix: &str) -> bool {
    ends_with(logical_name(name), suffix.spec_bytes())
}

/// The slot an entry name is recognised as under the given convention.
/// The tests are tried in this order; the normal-map suffix of the other
/// convention is not recognised at all.
pub open spec fn slot_of(name: Seq<u8>, normal_type: NormalMapType) -> Option<ChannelSlot> {
    if has_suffix(name, "_Color") {
        Some(ChannelSlot::Albedo)
    } else if has_suffix(name, "_Opacity") {
        Some(ChannelSlot::Opacity)
    } else if has_suffix(name, "_Metalness") {
        Some(ChannelSlot::Metalness)
    } else if has_suffix(name, "_Roughness") {
        Some(ChannelSlot::Roughness)
    } else if has_suffix(name, "_AmbientOcclusion") {
        Some(ChannelSlot::AmbientOcclusion)
    } else if has_suffix(name, "_Displacement") {
        Some(ChannelSlot::Displacement)
    } else if normal_type == NormalMapType::OpenGL && has_suffix(name, "_NormalGL") {
        Some(ChannelSlot::Normal)
    } else if normal_type == NormalMapType::Direct3D && has_suffix(name, "_NormalDX") {
        Some(ChannelSlot::Normal)
    } else {
        None
    }
}

/// The last index below `n` whose name is recognised as `slot`.
pub open spec fn last_match(
    names: Seq<Seq<u8>>,
    n: int,
    slot: ChannelSlot,
    normal_type: NormalMapType,
) -> Option<usize>
    decreases n,
{
    if n <= 0 {
        None
    } else if slot_of(names[n - 1], normal_type) == Some(slot) {
        Some((n - 1) as usize)
    } else {
        last_match(names, n - 1, slot, normal_type)
    }
}

pub open spec fn bytes_of_names(names: Seq<Vec<u8>>) -> Seq<Seq<u8>> {
    names.map_values(|v: Vec<u8>| v@)
}

/// The classification of a whole list of entry names: each slot holds the
/// last entry recognised as it.
pub open spec fn classified(names: Seq<Seq<u8>>, normal_type: NormalMapType) -> Channels {
    Channels {
        albedo: last_match(names, names.len() as int, ChannelSlot::Albedo, normal_type),
        opacity: last_match(names, names.len() as int, ChannelSlot::Opacity, normal_type),
        normal: last_match(names, names.len() as int, ChannelSlot::Normal, normal_type),
        metalness: last_match(names, names.len() as int, ChannelSlot::Metalness, normal_type),
        roughness: last_match(names, names.len() as int, ChannelSlot::Roughness, normal_type),
        ambient_occlusion: last_match(
            names,
            names.len() as int,
            ChannelSlot::AmbientOcclusion,
            normal_type,
        ),
        displacement: last_match(
            names,
            names.len() as int,
            ChannelSlot::Displacement,
            normal_type,
        ),
    }
}

proof fn lemma_name_end(b: Seq<u8>, k: int)
    requires
        0 <= k <= b.len(),
        forall|j: int| 0 <= j < k ==> b[j] != 46u8,
        k == b.len() || b[k] == 46u8,
    ensures
        name_end(b) == k,
    decreases k,
{
    if k > 0 {
        assert forall|j: int| 0 <= j < k - 1 implies b.drop_first()[j] != 46u8 by {
            assert(b.drop_first()[j] == b[j + 1]);
        }
        lemma_name_end(b.drop_first(), k - 1);
    }
}

/// Position of the first `.` in `name`, or its length when it has none.
fn find_name_end(name: &[u8]) -> (r: usize)
    ensures
        r <= name@.len(),
        r == name_end(name@),
{
    let mut i: usize = 0;
    while i < name.len() && name[i] != 46u8
        invariant
            i <= name.len(),
            forall|j: int| 0 <= j < i ==> name@[j] != 46u8,
        decreases name.len() - i,
    {
        i = i + 1;
    }
    proof {
        lemma_name_end(name@, i as int);
    }
    i
}

/// Whether the first `end` bytes of `name` end with `suffix`.
fn ends_with_at(name: &[u8], end: usize, suffix: &str) -> (r: bool)
    requires
        end <= name@.len(),
    ensures
        r == ends_with(name@.take(end as int), suffix.spec_bytes()),
{
    let s = suffix.as_bytes();
    if s.len() > end {
        return false;
    }
    let start = end - s.len();
    let mut i: usize = 0;
    while i < s.len()
        invariant
            s@ == suffix.spec_bytes(),
            start + s@.len() == end,
            end <= name@.len(),
            i <= s@.len(),
            forall|j: int| 0 <= j < i ==> name@[start + j] == s@[j],
        decreases s.len() - i,
    {
        if name[start + i] != s[i] {
            assert(name@.take(end as int).subrange(start as int, end as int)[i as int] != s@[i as int]);
            return false;
        }
        i = i + 1;
    }
    assert(name@.take(end as int).subrange(start as int, end as int) =~= s@);
    true
}

/// The slot that one entry name is recognised as.
pub fn slot_of_name(name: &[u8], normal_type: NormalMapType) -> (r: Option<ChannelSlot>)
    ensures
        r == slot_of(name@, normal_type),
{
    let end = find_name_end(name);
    assert(name@.take(end as int) == logical_name(name@));
    if ends_with_at(name, end, "_Color") {
        Some(ChannelSlot::Albedo)
    } else if ends_with_at(name, end, "_Opacity") {
        Some(ChannelSlot::Opacity)
    } else if ends_with_at(name, end, "_Metalness") {
        Some(ChannelSlot::Metalness)
    } else if ends_with_at(name, end, "_Roughness") {
        Some(ChannelSlot::Roughness)
    } else if ends_with_at(name, end, "_AmbientOcclusion") {
        Some(ChannelSlot::AmbientOcclusion)
    } else if ends_with_at(name, end, "_Displacement") {
        Some(ChannelSlot::Displacement)
    } else {
        match normal_type {
            NormalMapType::OpenGL => {
                if ends_with_at(name, end, "_NormalGL") {
                    Some(ChannelSlot::Normal)
                } else {
                    None
                }
            },
            NormalMapType::Direct3D => {
                if ends_with_at(name, end, "_NormalDX") {
                    Some(ChannelSlot::Normal)
                } else {
                    None
                }
            },
        }
    }
}

/// Maps archive entry names to channel slots. When several entries are
/// recognised as the same slot, the later one wins.
pub fn classify(names: &Vec<Vec<u8>>, normal_type: NormalMapType) -> (r: Channels)
    ensures
        r == classified(bytes_of_names(names@), normal_type),
{
    let ghost all = bytes_of_names(names@);
    let mut r = Channels {
        albedo: None,
        opacity: None,
        normal: None,
        metalness: None,
        roughness: None,
        ambient_occlusion: None,
        displacement: None,
    };
    let mut i: usize = 0;
    while i < names.len()
        invariant
            i <= names@.len(),
            all == bytes_of_names(names@),
            all.len() == names@.len(),
            forall|s: ChannelSlot| #[trigger]
                slot_entry(r, s) == last_match(all, i as int, s, normal_type),
        decreases names.len() - i,
    {
        let slot = slot_of_name(names[i].as_slice(), normal_type);
        assert(all[i as int] == names@[i as int]@);
        let ghost prev = r;
        match slot {
            Some(ChannelSlot::Albedo) => r.albedo = Some(i),
            Some(ChannelSlot::Opacity) => r.opacity = Some(i),
            Some(ChannelSlot::Normal) => r.normal = Some(i),
            Some(ChannelSlot::Metalness) => r.metalness = Some(i),
            Some(ChannelSlot::Roughness) => r.roughness = Some(i),
            Some(ChannelSlot::AmbientOcclusion) => r.ambient_occlusion = Some(i),
            Some(ChannelSlot::Displacement) => r.displacement = Some(i),
            None => {},
        }
        assert forall|s: ChannelSlot| #[trigger]
            slot_entry(r, s) == last_match(all, i + 1, s, normal_type) by {
            assert(slot_entry(prev, s) == last_match(all, i as int, s, normal_type));
            assert(last_match(all, i + 1, s, normal_type) == if slot == Some(s) {
                Some(i)
            } else {
                last_match(all, i as int, s, normal_type)
            });
        }
        i = i + 1;
    }
    assert(slot_entry(r, ChannelSlot::Albedo) == r.albedo);
    assert(slot_entry(r, ChannelSlot::Opacity) == r.opacity);
    assert(slot_entry(r, ChannelSlot::Normal) == r.normal);
    assert(slot_entry(r, ChannelSlot::Metalness) == r.metalness);
    assert(slot_entry(r, ChannelSlot::Roughness) == r.roughness);
    assert(slot_entry(r, ChannelSlot::AmbientOcclusion) == r.ambient_occlusion);
    assert(slot_entry(r, ChannelSlot::Displacement) == r.displacement);
    r
}

proof fn lemma_last_match_other_slots(names: Seq<Seq<u8>>, n: int, slot: ChannelSlot)
    requires
        slot != ChannelSlot::Normal,
    ensures
        last_match(names, n, slot, NormalMapType::OpenGL) == last_match(
            names,
            n,
            slot,
            NormalMapType::Direct3D,
        ),
    decreases n,
{
    if n > 0 {
        lemma_last_match_other_slots(names, n - 1, slot);
    }
}

proof fn lemma_last_match_found(
    names: Seq<Seq<u8>>,
    n: int,
    slot: ChannelSlot,
    normal_type: NormalMapType,
)
    requires
        n <= names.len() <= usize::MAX,
    ensures
        last_match(names, n, slot, normal_type) matches Some(k) ==> k < n && slot_of(
            names[k as int],
            normal_type,
        ) == Some(slot),
    decreases n,
{
    if n > 0 {
        lemma_last_match_found(names, n - 1, slot, normal_type);
    }
}

/// Every slot of a classification points at an entry of the list.
pub proof fn lemma_classified_in_range(names: Seq<Seq<u8>>, normal_type: NormalMapType)
    requires
        names.len() <= usize::MAX,
    ensures
        forall|s: ChannelSlot|
            #[trigger] slot_entry(classified(names, normal_type), s) matches Some(i) ==> i
                < names.len(),
{
    assert forall|s: ChannelSlot|
        #[trigger] slot_entry(classified(names, normal_type), s) is Some implies slot_entry(
            classified(names, normal_type),
            s,
        )->0 < names.len() by {
        lemma_last_match_found(names, names.len() as int, s, normal_type);
    }
}

/// Choosing the normal-map convention changes only the normal slot: under
/// OpenGL it is filled by an entry whose logical name ends in `_NormalGL`,
/// under Direct3D by one whose logical name ends in `_NormalDX`, and every
/// other slot is filled by the same entry under both.
pub proof fn lemma_normal_convention(names: Seq<Seq<u8>>)
    requires
        names.len() <= usize::MAX,
    ensures
        forall|s: ChannelSlot|
            s != ChannelSlot::Normal ==> slot_entry(classified(names, NormalMapType::OpenGL), s)
                == slot_entry(classified(names, NormalMapType::Direct3D), s),
        classified(names, NormalMapType::OpenGL).normal matches Some(k) ==> k < names.len()
            && has_suffix(names[k as int], "_NormalGL"),
        classified(names, NormalMapType::Direct3D).normal matches Some(k) ==> k < names.len()
            && has_suffix(names[k as int], "_NormalDX"),
{
    let n = names.len() as int;
    assert forall|s: ChannelSlot|
        s != ChannelSlot::Normal implies slot_entry(classified(names, NormalMapType::OpenGL), s)
            == slot_entry(classified(names, NormalMapType::Direct3D), s) by {
        lemma_last_match_other_slots(names, n, s);
    }
    lemma_last_match_found(names, n, ChannelSlot::Normal, NormalMapType::OpenGL);
    lemma_last_match_found(names, n, ChannelSlot::Normal, NormalMapType::Direct3D);
}

impl NormalMapType {
    /// Parses a convention name: `OpenGL` or `Direct3D`, compared byte for
    /// byte. Any other text is an invalid parameter carrying that text.
    pub fn parse(s: &str) -> (r: Result<NormalMapType, ApplicationError>)
        ensures
            s.spec_bytes() == "OpenGL".spec_bytes() ==> r == Ok::<NormalMapType, ApplicationError>(NormalMapType::OpenGL),
            s.spec_bytes() != "OpenGL".spec_bytes() && s.spec_bytes() == "Direct3D".spec_bytes() ==> r == Ok::<NormalMapType, ApplicationError>(NormalMapType::Direct3D),
            s.spec_bytes() != "OpenGL".spec_bytes() && s.spec_bytes() != "Direct3D".spec_bytes() ==> (
                match r {
                    Err(ApplicationError::InvalidParameter(t)) => t@ == s@,
                    _ => false,
                }),
    {
        if bytes_equal(s.as_bytes(), "OpenGL".as_bytes()) {
            Ok(NormalMapType::OpenGL)
        } else if bytes_equal(s.as_bytes(), "Direct3D".as_bytes()) {
            Ok(NormalMapType::Direct3D)
        } else {
            Err(ApplicationError::InvalidParameter(s.to_owned()))
        }
    }
}

/// Byte-for-byte equality of two slices.
pub fn bytes_equal(a: &[u8], b: &[u8]) -> (r: bool)
    ensures
        r == (a@ == b@),
{
    if a.len() != b.len() {
        return false;
    }
    let mut i: usize = 0;
    while i < a.len()
        invariant
            a@.len() == b@.len(),
            i <= a@.len(),
            forall|j: int| 0 <= j < i ==> a@[j] == b@[j],
        decreases a.len() - i,
    {
        if a[i] != b[i] {
            return false;
        }
        i = i + 1;
    }
    assert(a@ =~= b@);
    true
}

impl std::str::FromStr for NormalMapType {
    type Err = ApplicationError;

    fn from_str(s: &str) -> Result<Self, Self::Err> {
        NormalMapType::parse(s)
    }
}

} // verus!
