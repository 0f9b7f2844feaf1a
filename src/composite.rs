use vstd::prelude::*;

verus! {

/// Interleaves an RGB plane and a single-channel plane into RGBA: the colour
/// of pixel `i` stays in bytes `4i..4i+3`, its alpha goes to byte `4i+3`.
pub open spec fn with_alpha(rgb: Seq<u8>, alpha: Seq<u8>) -> Seq<u8> {
    Seq::new(
        4 * alpha.len(),
        |p: int|
            if p % 4 < 3 {
                rgb[3 * (p / 4) + p % 4]
            } else {
                alpha[p / 4]
            },
    )
}

/// The value a single-channel plane gives pixel `i`; an absent plane gives 0.
pub open spec fn plane_value(plane: Option<Seq<u8>>, i: int) -> u8 {
    match plane {
        Some(v) => v[i],
        None => 0,
    }
}

pub open spec fn plane_view(plane: &Option<Vec<u8>>) -> Option<Seq<u8>> {
    match plane {
        Some(v) => Some(v@),
        None => None,
    }
}

/// A packed RGBA image of `n` pixels whose four channels come, in order, from
/// the four single-channel planes; a channel without a plane stays 0.
pub open spec fn packed(
    first: Option<Seq<u8>>,
    second: Option<Seq<u8>>,
    third: Option<Seq<u8>>,
    fourth: Option<Seq<u8>>,
    n: nat,
) -> Seq<u8> {
    Seq::new(
        4 * n,
        |p: int|
            if p % 4 == 0 {
                plane_value(first, p / 4)
            } else if p % 4 == 1 {
                plane_value(second, p / 4)
            } else if p % 4 == 2 {
                plane_value(third, p / 4)
            } else {
                plane_value(fourth, p / 4)
            },
    )
}

pub open spec fn plane_fits(plane: &Option<Vec<u8>>, n: nat) -> bool {
    match plane {
        Some(v) => v@.len() == n,
        None => true,
    }
}

/// Pixel `i` of a packed image holds, in its four channels, the values of the
/// four planes at `i`; the channel of an absent plane is 0.
pub proof fn lemma_packed_pixel(
    first: Option<Seq<u8>>,
    second: Option<Seq<u8>>,
    third: Option<Seq<u8>>,
    fourth: Option<Seq<u8>>,
    n: nat,
    i: int,
)
    requires
        0 <= i < n,
    ensures
        packed(first, second, third, fourth, n)[4 * i] == plane_value(first, i),
        packed(first, second, third, fourth, n)[4 * i + 1] == plane_value(second, i),
        packed(first, second, third, fourth, n)[4 * i + 2] == plane_value(third, i),
        packed(first, second, third, fourth, n)[4 * i + 3] == plane_value(fourth, i),
{
    assert((4 * i) / 4 == i && (4 * i) % 4 == 0);
    assert((4 * i + 1) / 4 == i && (4 * i + 1) % 4 == 1);
    assert((4 * i + 2) / 4 == i && (4 * i + 2) % 4 == 2);
    assert((4 * i + 3) / 4 == i && (4 * i + 3) % 4 == 3);
}

/// Pixel `i` of an image with alpha keeps the colour of pixel `i` and takes
/// the alpha plane's value at `i` as its fourth channel.
pub proof fn lemma_alpha_pixel(rgb: Seq<u8>, alpha: Seq<u8>, i: int)
    requires
        0 <= i < alpha.len(),
        rgb.len() == 3 * alpha.len(),
    ensures
        with_alpha(rgb, alpha)[4 * i] == rgb[3 * i],
        with_alpha(rgb, alpha)[4 * i + 1] == rgb[3 * i + 1],
        with_alpha(rgb, alpha)[4 * i + 2] == rgb[3 * i + 2],
        with_alpha(rgb, alpha)[4 * i + 3] == alpha[i],
{
    assert((4 * i) / 4 == i && (4 * i) % 4 == 0);
    assert((4 * i + 1) / 4 == i && (4 * i + 1) % 4 == 1);
    assert((4 * i + 2) / 4 == i && (4 * i + 2) % 4 == 2);
    assert((4 * i + 3) / 4 == i && (4 * i + 3) % 4 == 3);
}

/// Adds an alpha channel to an RGB image.
pub fn compose_albedo(rgb: &Vec<u8>, alpha: &Vec<u8>) -> (r: Vec<u8>)
    requires
        rgb@.len() == 3 * alpha@.len(),
        4 * alpha@.len() <= usize::MAX,
    ensures
        r@ == with_alpha(rgb@, alpha@),
{
    let n = alpha.len();
    let mut r: Vec<u8> = Vec::with_capacity(4 * n);
    let mut i: usize = 0;
    while i < n
        invariant
            n == alpha@.len(),
            rgb@.len() == 3 * n,
            4 * n <= usize::MAX,
            i <= n,
            r@.len() == 4 * i,
            forall|p: int| 0 <= p < 4 * i ==> #[trigger] r@[p] == with_alpha(rgb@, alpha@)[p],
        decreases n - i,
    {
        let ghost before = r@;
        r.push(rgb[3 * i]);
        r.push(rgb[3 * i + 1]);
        r.push(rgb[3 * i + 2]);
        r.push(alpha[i]);
        assert forall|p: int| 0 <= p < 4 * (i + 1) implies #[trigger] r@[p] == with_alpha(
            rgb@,
            alpha@,
        )[p] by {
            if p < 4 * i {
                assert(r@[p] == before[p]);
            } else {
                assert(p / 4 == i);
                assert(p % 4 == p - 4 * i);
            }
        }
        i = i + 1;
    }
    assert(r@ =~= with_alpha(rgb@, alpha@));
    r
}

/// Packs up to four single-channel planes of `n` pixels into one RGBA image,
/// channel by channel in argument order; absent planes leave their channel 0.
pub fn compose_material_pack(
    first: &Option<Vec<u8>>,
    second: &Option<Vec<u8>>,
    third: &Option<Vec<u8>>,
    fourth: &Option<Vec<u8>>,
    n: usize,
) -> (r: Vec<u8>)
    requires
        plane_fits(first, n as nat),
        plane_fits(second, n as nat),
        plane_fits(third, n as nat),
        plane_fits(fourth, n as nat),
        4 * n <= usize::MAX,
    ensures
        r@ == packed(
            plane_view(first),
            plane_view(second),
            plane_view(third),
            plane_view(fourth),
            n as nat,
        ),
{
    let ghost want = packed(
        plane_view(first),
        plane_view(second),
        plane_view(third),
        plane_view(fourth),
        n as nat,
    );
    let mut r: Vec<u8> = Vec::with_capacity(4 * n);
    let mut i: usize = 0;
    while i < n
        invariant
            i <= n,
            4 * n <= usize::MAX,
            plane_fits(first, n as nat),
            plane_fits(second, n as nat),
            plane_fits(third, n as nat),
            plane_fits(fourth, n as nat),
            want == packed(
                plane_view(first),
                plane_view(second),
                plane_view(third),
                plane_view(fourth),
                n as nat,
            ),
            r@.len() == 4 * i,
            forall|p: int| 0 <= p < 4 * i ==> #[trigger] r@[p] == want[p],
        decreases n - i,
    {
        let ghost before = r@;
        r.push(pixel_of(first, i));
        r.push(pixel_of(second, i));
        r.push(pixel_of(third, i));
        r.push(pixel_of(fourth, i));
        assert forall|p: int| 0 <= p < 4 * (i + 1) implies #[trigger] r@[p] == want[p] by {
            if p < 4 * i {
                assert(r@[p] == before[p]);
            } else {
                assert(p / 4 == i);
                assert(p % 4 == p - 4 * i);
            }
        }
        i = i + 1;
    }
    assert(r@ =~= want);
    r
}

fn pixel_of(plane: &Option<Vec<u8>>, i: usize) -> (r: u8)
    requires
        match plane {
            Some(v) => i < v@.len(),
            None => true,
        },
    ensures
        r == plane_value(plane_view(plane), i as int),
{
    match plane {
        Some(v) => v[i],
        None => 0,
    }
}

} // verus!
