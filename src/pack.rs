use vstd::prelude::*;

use vstd::utf8::encode_utf8;

use crate::channels::{
    bytes_of_names, classified, classify, has_suffix, slot_entry, ChannelSlot, Channels,
    NormalMapType,
};
use crate::codec::{
    archive_bytes, archive_len, decode_resampled_luma8, decode_resampled_rgb8, decoded_layout,
    encode_png, entry_contents, entry_name, image_decodes, image_layout, luma8_resampled, open_archive,
    png_of, rgb8_resampled, zip_entry_data, zip_entry_located, zip_entry_names, zip_opens, Archive,
};
use crate::composite::{compose_albedo, compose_material_pack, packed, plane_fits, plane_view, with_alpha};
use crate::error::ApplicationError;
use crate::manifest::{manifest_for, manifest_text_for, render_manifest};
use crate::plan::{after_run, plan_pack, planned, scratch_name, Artifact, Existing, PackPlan};

verus! {

/// One file of a bundle, ready to be committed.
#[derive(Debug)]
pub struct Output {
    pub artifact: Artifact,
    pub bytes: Vec<u8>,
}

pub open spec fn artifact_name(a: Artifact) -> Seq<char> {
    match a {
        Artifact::Manifest => "Material.json"@,
        Artifact::Albedo => "Albedo.png"@,
        Artifact::Normal => "Normal.png"@,
        Artifact::MaterialPack => "MetallicOcclusionDisplacementRoughness.png"@,
    }
}

/// File name of an artifact inside its bundle directory.
pub fn artifact_file_name(a: Artifact) -> (r: &'static str)
    ensures
        r@ == artifact_name(a),
{
    match a {
        Artifact::Manifest => "Material.json",
        Artifact::Albedo => "Albedo.png",
        Artifact::Normal => "Normal.png",
        Artifact::MaterialPack => "MetallicOcclusionDisplacementRoughness.png",
    }
}

/// A scratch file never has the name of a bundle artifact, so a file that a
/// crash leaves half written is never taken for a committed one.
pub proof fn lemma_scratch_is_not_an_artifact(prefix: Seq<char>, worker: Option<usize>, a: Artifact)
    ensures
        scratch_name(prefix, worker) != artifact_name(a),
{
    reveal_strlit(".tmp");
    reveal_strlit("Material.json");
    reveal_strlit("Albedo.png");
    reveal_strlit("Normal.png");
    reveal_strlit("MetallicOcclusionDisplacementRoughness.png");
    let s = scratch_name(prefix, worker);
    let n = artifact_name(a);
    if s == n {
        assert(s[s.len() - 1] == 'p');
        assert(n[n.len() - 1] != 'p');
    }
}

/// The artifacts a plan produces, in the order they are produced.
pub open spec fn planned_artifacts(p: PackPlan) -> Seq<Artifact> {
    (if p.manifest {
        seq![Artifact::Manifest]
    } else {
        seq![]
    }) + (if p.albedo {
        seq![Artifact::Albedo]
    } else {
        seq![]
    }) + (if p.normal {
        seq![Artifact::Normal]
    } else {
        seq![]
    }) + (if p.material_pack {
        seq![Artifact::MaterialPack]
    } else {
        seq![]
    })
}

pub open spec fn artifacts_of(outs: Seq<Output>) -> Seq<Artifact> {
    outs.map_values(|o: Output| o.artifact)
}

/// Whether entry `i` of the archive reads and decodes as an image.
pub open spec fn entry_decodes(bytes: Seq<u8>, i: usize) -> bool {
    zip_entry_data(bytes, i as nat) matches Some(d) && image_decodes(d)
}

/// Whether the entry of a slot, if it has one, reads and decodes.
pub open spec fn slot_decodes(bytes: Seq<u8>, slot: Option<usize>) -> bool {
    match slot {
        Some(i) => entry_decodes(bytes, i),
        None => true,
    }
}

pub open spec fn entry_data(bytes: Seq<u8>, i: usize) -> Seq<u8> {
    zip_entry_data(bytes, i as nat)->0
}

/// Entry `i` decoded and resampled to `w` by `h` RGB pixels.
pub open spec fn entry_rgb(bytes: Seq<u8>, i: usize, w: u32, h: u32) -> Seq<u8> {
    rgb8_resampled(entry_data(bytes, i), w, h)
}

/// Entry `i` decoded and resampled to `w` by `h` luminance pixels.
pub open spec fn entry_luma(bytes: Seq<u8>, i: usize, w: u32, h: u32) -> Seq<u8> {
    luma8_resampled(entry_data(bytes, i), w, h)
}

/// The luminance plane of a slot, when the slot is filled.
pub open spec fn slot_plane(bytes: Seq<u8>, slot: Option<usize>, w: u32, h: u32) -> Option<Seq<u8>> {
    match slot {
        Some(i) => Some(entry_luma(bytes, i, w, h)),
        None => None,
    }
}

/// The albedo PNG: the resized colour entry, with the resized opacity entry
/// as alpha when there is one.
pub open spec fn albedo_png(bytes: Seq<u8>, c: Channels, w: u32, h: u32) -> Seq<u8> {
    match c.opacity {
        Some(o) => png_of(
            with_alpha(entry_rgb(bytes, c.albedo->0, w, h), entry_luma(bytes, o, w, h)),
            w,
            h,
            true,
        ),
        None => png_of(entry_rgb(bytes, c.albedo->0, w, h), w, h, false),
    }
}

/// The normal-map PNG: the resized entry of the normal slot.
pub open spec fn normal_png(bytes: Seq<u8>, c: Channels, w: u32, h: u32) -> Seq<u8> {
    png_of(entry_rgb(bytes, c.normal->0, w, h), w, h, false)
}

/// The packed material PNG: the resized luminance of the metalness, ambient
/// occlusion, displacement and roughness entries in channels one to four,
/// 0 in the channel of each empty slot.
pub open spec fn material_png(bytes: Seq<u8>, c: Channels, w: u32, h: u32) -> Seq<u8> {
    png_of(
        packed(
            slot_plane(bytes, c.metalness, w, h),
            slot_plane(bytes, c.ambient_occlusion, w, h),
            slot_plane(bytes, c.displacement, w, h),
            slot_plane(bytes, c.roughness, w, h),
            (w * h) as nat,
        ),
        w,
        h,
        true,
    )
}

/// The bytes of each artifact of material `name`.
pub open spec fn output_bytes(
    a: Artifact,
    bytes: Seq<u8>,
    name: Seq<char>,
    c: Channels,
    w: u32,
    h: u32,
) -> Seq<u8> {
    match a {
        Artifact::Manifest => encode_utf8(manifest_text_for(name, c)),
        Artifact::Albedo => albedo_png(bytes, c, w, h),
        Artifact::Normal => normal_png(bytes, c, w, h),
        Artifact::MaterialPack => material_png(bytes, c, w, h),
    }
}

/// Every entry's local header can be located.
pub open spec fn names_located(bytes: Seq<u8>) -> bool {
    forall|i: nat| i < zip_entry_names(bytes).len() ==> #[trigger] zip_entry_located(bytes, i)
}

/// The archive opens and all its entry names can be read.
pub open spec fn archive_readable(bytes: Seq<u8>) -> bool {
    zip_opens(bytes) && names_located(bytes)
}

/// Whether a declared opacity flag contradicts the colour entry: the entry
/// decodes, and it has an alpha channel (four channels) exactly when it should
/// not.
pub open spec fn opacity_mismatch(bytes: Seq<u8>, c: Channels, declared: Option<bool>) -> bool {
    match (declared, c.albedo) {
        (Some(d), Some(i)) => entry_decodes(bytes, i) && ((image_layout(entry_data(bytes, i)).channels
            == 4) != d),
        _ => false,
    }
}

/// Whether the opacity check can be made and passes: nothing is declared,
/// there is no colour entry, or it decodes with the declared alpha.
pub open spec fn opacity_valid(bytes: Seq<u8>, c: Channels, declared: Option<bool>) -> bool {
    match (declared, c.albedo) {
        (Some(d), Some(i)) => entry_decodes(bytes, i) && ((image_layout(entry_data(bytes, i)).channels
            == 4) == d),
        _ => true,
    }
}

/// Everything a plan needs can be read, decoded and encoded.
pub open spec fn plan_feasible(bytes: Seq<u8>, c: Channels, p: PackPlan, w: u32, h: u32) -> bool {
    &&& p.albedo ==> slot_decodes(bytes, c.albedo) && slot_decodes(bytes, c.opacity)
    &&& p.normal ==> slot_decodes(bytes, c.normal)
    &&& p.material_pack ==> slot_decodes(bytes, c.metalness) && slot_decodes(
        bytes,
        c.ambient_occlusion,
    ) && slot_decodes(bytes, c.displacement) && slot_decodes(bytes, c.roughness)
    &&& (p.albedo || p.normal || p.material_pack) ==> w > 0 && h > 0
}

/// When packing an item succeeds.
pub open spec fn pack_succeeds(
    bytes: Seq<u8>,
    normal_type: NormalMapType,
    w: u32,
    h: u32,
    declared_opacity: Option<bool>,
    existing: Existing,
    force: bool,
) -> bool {
    let c = classified(zip_entry_names(bytes), normal_type);
    &&& archive_readable(bytes)
    &&& opacity_valid(bytes, c, declared_opacity)
    &&& plan_feasible(bytes, c, planned(c, existing, force), w, h)
}

/// Packing an item again, unforced, after a successful run's outputs were
/// committed, succeeds as well and produces no file.
pub proof fn lemma_repack_succeeds_and_writes_nothing(
    bytes: Seq<u8>,
    normal_type: NormalMapType,
    w: u32,
    h: u32,
    declared_opacity: Option<bool>,
    existing: Existing,
    force: bool,
)
    requires
        pack_succeeds(bytes, normal_type, w, h, declared_opacity, existing, force),
    ensures
        ({
            let c = classified(zip_entry_names(bytes), normal_type);
            let again = after_run(existing, planned(c, existing, force));
            &&& pack_succeeds(bytes, normal_type, w, h, declared_opacity, again, false)
            &&& planned_artifacts(planned(c, again, false)) == Seq::<Artifact>::empty()
        }),
{
    let c = classified(zip_entry_names(bytes), normal_type);
    let again = after_run(existing, planned(c, existing, force));
    assert(planned_artifacts(planned(c, again, false)) =~= Seq::<Artifact>::empty());
}

/// The normal-map convention changes only the normal map: the albedo and
/// packed material images are the same bytes under both conventions, and
/// each convention's normal map is made from an entry with its own suffix.
pub proof fn lemma_convention_changes_only_normal(bytes: Seq<u8>, w: u32, h: u32)
    requires
        zip_entry_names(bytes).len() <= usize::MAX,
    ensures
        ({
            let names = zip_entry_names(bytes);
            let gl = classified(names, NormalMapType::OpenGL);
            let dx = classified(names, NormalMapType::Direct3D);
            &&& albedo_png(bytes, gl, w, h) == albedo_png(bytes, dx, w, h)
            &&& material_png(bytes, gl, w, h) == material_png(bytes, dx, w, h)
            &&& gl.normal matches Some(k) ==> has_suffix(names[k as int], "_NormalGL")
            &&& dx.normal matches Some(k) ==> has_suffix(names[k as int], "_NormalDX")
        }),
{
    let names = zip_entry_names(bytes);
    crate::channels::lemma_normal_convention(names);
    let gl = classified(names, NormalMapType::OpenGL);
    let dx = classified(names, NormalMapType::Direct3D);
    assert(slot_entry(gl, ChannelSlot::Albedo) == slot_entry(dx, ChannelSlot::Albedo));
    assert(slot_entry(gl, ChannelSlot::Opacity) == slot_entry(dx, ChannelSlot::Opacity));
    assert(slot_entry(gl, ChannelSlot::Metalness) == slot_entry(dx, ChannelSlot::Metalness));
    assert(slot_entry(gl, ChannelSlot::AmbientOcclusion) == slot_entry(
        dx,
        ChannelSlot::AmbientOcclusion,
    ));
    assert(slot_entry(gl, ChannelSlot::Displacement) == slot_entry(dx, ChannelSlot::Displacement));
    assert(slot_entry(gl, ChannelSlot::Roughness) == slot_entry(dx, ChannelSlot::Roughness));
}

/// Reads the names of all entries of an archive and classifies them; also
/// hands out the names as text.
pub fn archive_channels(a: &mut Archive, normal_type: NormalMapType) -> (r: Result<
    (Channels, Vec<String>),
    ApplicationError,
>)
    ensures
        archive_bytes(*final(a)) == archive_bytes(*old(a)),
        r is Ok <==> names_located(archive_bytes(*old(a))),
        r matches Err(e) ==> e is Zip,
        r matches Ok((c, ns)) ==> c == classified(zip_entry_names(archive_bytes(*old(a))), normal_type)
            && ns@.len() == zip_entry_names(archive_bytes(*old(a))).len() && forall|i: int|
            0 <= i < ns@.len() ==> encode_utf8(#[trigger] ns@[i]@) == zip_entry_names(
                archive_bytes(*old(a)),
            )[i],
{
    let ghost bytes = archive_bytes(*a);
    let ghost all = zip_entry_names(bytes);
    let n = archive_len(a);
    let mut names: Vec<Vec<u8>> = Vec::new();
    let mut texts: Vec<String> = Vec::new();
    let mut i: usize = 0;
    while i < n
        invariant
            n == all.len(),
            bytes == archive_bytes(*old(a)),
            archive_bytes(*a) == bytes,
            all == zip_entry_names(bytes),
            i <= n,
            names@.len() == i,
            texts@.len() == i,
            bytes_of_names(names@) =~= all.take(i as int),
            forall|j: int| 0 <= j < i ==> encode_utf8(#[trigger] texts@[j]@) == all[j],
            forall|j: nat| j < i ==> #[trigger] zip_entry_located(bytes, j),
        decreases n - i,
    {
        let text = match entry_name(a, i) {
            Ok(text) => text,
            Err(e) => {
                return Err(ApplicationError::Zip(e));
            },
        };
        let name = vstd::slice::slice_to_vec(text.as_str().as_bytes());
        assert(name@ == all[i as int]);
        let ghost prev = names@;
        names.push(name);
        texts.push(text);
        assert forall|j: int| 0 <= j <= i implies bytes_of_names(names@)[j] == all[j] by {
            if j < i {
                assert(names@[j] == prev[j]);
                assert(bytes_of_names(prev)[j] == all.take(i as int)[j]);
            }
        }
        assert(bytes_of_names(names@) =~= all.take(i + 1));
        i = i + 1;
    }
    assert(all.take(n as int) =~= all);
    Ok((classify(&names, normal_type), texts))
}

proof fn lemma_sizes(w: u32, h: u32)
    requires
        4 * w * h <= usize::MAX,
    ensures
        w * h <= usize::MAX,
        4 * (w * h) == 4 * w * h,
        3 * (w * h) == 3 * w * h,
        4 * (w * h) <= usize::MAX,
        (w as usize) as int * (h as usize) as int == w * h,
{
    assert(4 * w * h == 4 * (w * h)) by (nonlinear_arith);
    assert(3 * w * h == 3 * (w * h)) by (nonlinear_arith);
    assert(w * h >= 0) by (nonlinear_arith);
}

/// Reads entry `index`, decodes it and resamples it to `w` by `h` RGB pixels.
fn rgb_plane(a: &mut Archive, index: usize, w: u32, h: u32) -> (r: Result<Vec<u8>, ApplicationError>)
    requires
        4 * w * h <= usize::MAX,
    ensures
        r matches Err(e) ==> !(e is InvalidImage),
        archive_bytes(*final(a)) == archive_bytes(*old(a)),
        r is Ok <==> entry_decodes(archive_bytes(*old(a)), index),
        r matches Ok(v) ==> v@ == entry_rgb(archive_bytes(*old(a)), index, w, h) && v@.len() == 3
            * w * h,
{
    let data = entry_contents(a, index)?;
    match decode_resampled_rgb8(data.as_slice(), w, h) {
        Ok(v) => Ok(v),
        Err(e) => Err(ApplicationError::Image(e)),
    }
}

/// Reads entry `index`, decodes it and resamples it to `w` by `h` luminance pixels.
fn luma_plane(a: &mut Archive, index: usize, w: u32, h: u32) -> (r: Result<Vec<u8>, ApplicationError>)
    requires
        4 * w * h <= usize::MAX,
    ensures
        r matches Err(e) ==> !(e is InvalidImage),
        archive_bytes(*final(a)) == archive_bytes(*old(a)),
        r is Ok <==> entry_decodes(archive_bytes(*old(a)), index),
        r matches Ok(v) ==> v@ == entry_luma(archive_bytes(*old(a)), index, w, h) && v@.len() == w
            * h,
{
    let data = entry_contents(a, index)?;
    match decode_resampled_luma8(data.as_slice(), w, h) {
        Ok(v) => Ok(v),
        Err(e) => Err(ApplicationError::Image(e)),
    }
}

/// The luminance plane of a slot when it is filled.
fn optional_luma_plane(a: &mut Archive, index: Option<usize>, w: u32, h: u32) -> (r: Result<
    Option<Vec<u8>>,
    ApplicationError,
>)
    requires
        4 * w * h <= usize::MAX,
    ensures
        r matches Err(e) ==> !(e is InvalidImage),
        archive_bytes(*final(a)) == archive_bytes(*old(a)),
        r is Ok <==> slot_decodes(archive_bytes(*old(a)), index),
        r matches Ok(p) ==> plane_view(&p) == slot_plane(archive_bytes(*old(a)), index, w, h)
            && plane_fits(&p, (w * h) as nat),
{
    match index {
        Some(i) => {
            let v = luma_plane(a, i, w, h)?;
            Ok(Some(v))
        },
        None => Ok(None),
    }
}

fn png(pixels: &Vec<u8>, w: u32, h: u32, alpha: bool) -> (r: Result<Vec<u8>, ApplicationError>)
    requires
        pixels@.len() == (if alpha {
            4int
        } else {
            3int
        }) * w * h,
    ensures
        r matches Err(e) ==> !(e is InvalidImage),
        r is Ok <==> w > 0 && h > 0,
        r matches Ok(b) ==> b@ == png_of(pixels@, w, h, alpha),
{
    match encode_png(pixels.as_slice(), w, h, alpha) {
        Ok(b) => Ok(b),
        Err(e) => Err(ApplicationError::Image(e)),
    }
}

/// The albedo image: RGB, with the opacity map as alpha when there is one.
fn albedo_output(a: &mut Archive, c: &Channels, w: u32, h: u32) -> (r: Result<Vec<u8>, ApplicationError>)
    requires
        4 * w * h <= usize::MAX,
        c.albedo is Some,
    ensures
        r matches Err(e) ==> !(e is InvalidImage),
        archive_bytes(*final(a)) == archive_bytes(*old(a)),
        r is Ok <==> slot_decodes(archive_bytes(*old(a)), c.albedo) && slot_decodes(
            archive_bytes(*old(a)),
            c.opacity,
        ) && w > 0 && h > 0,
        r matches Ok(b) ==> b@ == albedo_png(archive_bytes(*old(a)), *c, w, h),
{
    proof {
        lemma_sizes(w, h);
    }
    let rgb = rgb_plane(a, c.albedo.unwrap(), w, h)?;
    match c.opacity {
        Some(i) => {
            let alpha = luma_plane(a, i, w, h)?;
            let rgba = compose_albedo(&rgb, &alpha);
            png(&rgba, w, h, true)
        },
        None => png(&rgb, w, h, false),
    }
}

/// The normal map, resampled and written as RGB.
fn normal_output(a: &mut Archive, c: &Channels, w: u32, h: u32) -> (r: Result<Vec<u8>, ApplicationError>)
    requires
        4 * w * h <= usize::MAX,
        c.normal is Some,
    ensures
        r matches Err(e) ==> !(e is InvalidImage),
        archive_bytes(*final(a)) == archive_bytes(*old(a)),
        r is Ok <==> slot_decodes(archive_bytes(*old(a)), c.normal) && w > 0 && h > 0,
        r matches Ok(b) ==> b@ == normal_png(archive_bytes(*old(a)), *c, w, h),
{
    let rgb = rgb_plane(a, c.normal.unwrap(), w, h)?;
    png(&rgb, w, h, false)
}

/// The packed material image of the four single-channel slots.
fn material_output(a: &mut Archive, c: &Channels, w: u32, h: u32) -> (r: Result<Vec<u8>, ApplicationError>)
    requires
        4 * w * h <= usize::MAX,
    ensures
        r matches Err(e) ==> !(e is InvalidImage),
        archive_bytes(*final(a)) == archive_bytes(*old(a)),
        r is Ok <==> slot_decodes(archive_bytes(*old(a)), c.metalness) && slot_decodes(
            archive_bytes(*old(a)),
            c.ambient_occlusion,
        ) && slot_decodes(archive_bytes(*old(a)), c.displacement) && slot_decodes(
            archive_bytes(*old(a)),
            c.roughness,
        ) && w > 0 && h > 0,
        r matches Ok(b) ==> b@ == material_png(archive_bytes(*old(a)), *c, w, h),
{
    proof {
        lemma_sizes(w, h);
    }
    let n = (w as usize) * (h as usize);
    let metal = optional_luma_plane(a, c.metalness, w, h)?;
    let ao = optional_luma_plane(a, c.ambient_occlusion, w, h)?;
    let disp = optional_luma_plane(a, c.displacement, w, h)?;
    let rough = optional_luma_plane(a, c.roughness, w, h)?;
    let pixels = compose_material_pack(&metal, &ao, &disp, &rough, n);
    png(&pixels, w, h, true)
}

/// Checks a declared opacity flag against the colour entry: it must decode
/// with four channels exactly when opacity is declared. A mismatch is an
/// invalid image naming the colour entry.
fn check_opacity(
    a: &mut Archive,
    c: &Channels,
    names: &Vec<String>,
    declared_opacity: Option<bool>,
) -> (r: Result<(), ApplicationError>)
    requires
        c.albedo matches Some(i) ==> i < names@.len(),
    ensures
        archive_bytes(*final(a)) == archive_bytes(*old(a)),
        r is Ok <==> opacity_valid(archive_bytes(*old(a)), *c, declared_opacity),
        (r matches Err(ApplicationError::InvalidImage(_))) <==> opacity_mismatch(
            archive_bytes(*old(a)),
            *c,
            declared_opacity,
        ),
        r matches Err(ApplicationError::InvalidImage(p)) ==> p@ == names@[c.albedo->0 as int]@,
{
    match (declared_opacity, c.albedo) {
        (Some(d), Some(i)) => {
            let data = entry_contents(a, i)?;
            let layout = match decoded_layout(data.as_slice()) {
                Ok(l) => l,
                Err(e) => {
                    return Err(ApplicationError::Image(e));
                },
            };
            if (layout.channels == 4) == d {
                Ok(())
            } else {
                Err(ApplicationError::InvalidImage(names[i].clone()))
            }
        },
        _ => Ok(()),
    }
}

/// Produces the artifacts a plan asks for, in order.
fn produce(a: &mut Archive, name: &str, c: &Channels, plan: PackPlan, width: u32, height: u32) -> (r:
    Result<Vec<Output>, ApplicationError>)
    requires
        4 * width * height <= usize::MAX,
        plan.albedo ==> c.albedo is Some,
        plan.normal ==> c.normal is Some,
    ensures
        archive_bytes(*final(a)) == archive_bytes(*old(a)),
        r is Ok <==> plan_feasible(archive_bytes(*old(a)), *c, plan, width, height),
        r matches Err(e) ==> !(e is InvalidImage),
        r matches Ok(outs) ==> ({
            &&& artifacts_of(outs@) == planned_artifacts(plan)
            &&& forall|i: int|
                0 <= i < outs@.len() ==> (#[trigger] outs@[i]).bytes@ == output_bytes(
                    outs@[i].artifact,
                    archive_bytes(*old(a)),
                    name@,
                    *c,
                    width,
                    height,
                )
        }),
{
    let ghost bytes = archive_bytes(*a);
    let mut outs: Vec<Output> = Vec::new();
    if plan.manifest {
        let text = render_manifest(&manifest_for(name, c));
        let b = vstd::slice::slice_to_vec(text.as_str().as_bytes());
        outs.push(Output { artifact: Artifact::Manifest, bytes: b });
    }
    let ghost after_manifest = outs@;
    if plan.albedo {
        let b = albedo_output(a, c, width, height)?;
        outs.push(Output { artifact: Artifact::Albedo, bytes: b });
    }
    let ghost after_albedo = outs@;
    if plan.normal {
        let b = normal_output(a, c, width, height)?;
        outs.push(Output { artifact: Artifact::Normal, bytes: b });
    }
    let ghost after_normal = outs@;
    if plan.material_pack {
        let b = material_output(a, c, width, height)?;
        outs.push(Output { artifact: Artifact::MaterialPack, bytes: b });
    }
    assert(artifacts_of(outs@) =~= planned_artifacts(plan));
    assert forall|i: int| 0 <= i < outs@.len() implies (#[trigger] outs@[i]).bytes@
        == output_bytes(outs@[i].artifact, bytes, name@, *c, width, height) by {
        if i < after_manifest.len() {
            assert(outs@[i] == after_manifest[i]);
        } else if i < after_albedo.len() {
            assert(outs@[i] == after_albedo[i]);
        } else if i < after_normal.len() {
            assert(outs@[i] == after_normal[i]);
        }
    }
    Ok(outs)
}

/// The pack transform of one item: classifies the archive's entries, checks
/// a declared opacity flag against the colour entry, decides artifact by
/// artifact what to produce, and produces it. Nothing is written here; the
/// caller commits the outputs. It succeeds exactly when the archive and
/// every entry the plan needs can be read and decoded, the opacity check
/// passes, and the size is not zero where an image is produced. A failed
/// opacity check is an invalid image naming the colour entry.
pub fn pack_item(
    archive: Vec<u8>,
    name: &str,
    normal_type: NormalMapType,
    width: u32,
    height: u32,
    declared_opacity: Option<bool>,
    existing: Existing,
    force: bool,
) -> (r: Result<Vec<Output>, ApplicationError>)
    requires
        4 * width * height <= usize::MAX,
    ensures
        r is Ok <==> pack_succeeds(archive@, normal_type, width, height, declared_opacity, existing, force),
        (r matches Err(ApplicationError::InvalidImage(_))) <==> archive_readable(archive@)
            && opacity_mismatch(
            archive@,
            classified(zip_entry_names(archive@), normal_type),
            declared_opacity,
        ),
        r matches Err(ApplicationError::InvalidImage(p)) ==> encode_utf8(p@) == zip_entry_names(
            archive@,
        )[classified(zip_entry_names(archive@), normal_type).albedo->0 as int],
        r matches Ok(outs) ==> ({
            let c = classified(zip_entry_names(archive@), normal_type);
            &&& artifacts_of(outs@) == planned_artifacts(planned(c, existing, force))
            &&& forall|i: int|
                0 <= i < outs@.len() ==> (#[trigger] outs@[i]).bytes@ == output_bytes(
                    outs@[i].artifact,
                    archive@,
                    name@,
                    c,
                    width,
                    height,
                )
        }),
{
    let ghost bytes = archive@;
    let mut a = match open_archive(archive) {
        Ok(a) => a,
        Err(e) => {
            return Err(ApplicationError::Zip(e));
        },
    };
    let (c, names) = archive_channels(&mut a, normal_type)?;
    let ghost c0 = classified(zip_entry_names(bytes), normal_type);
    assert(c == c0);
    let count = names.len();
    proof {
        crate::channels::lemma_classified_in_range(zip_entry_names(bytes), normal_type);
        assert(slot_entry(c, ChannelSlot::Albedo) == c.albedo);
    }
    check_opacity(&mut a, &c, &names, declared_opacity)?;
    let plan = plan_pack(&c, &existing, force);
    produce(&mut a, name, &c, plan, width, height)
}

} // verus!
