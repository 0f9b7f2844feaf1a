use vstd::prelude::*;

use crate::channels::bytes_equal;
use vstd::string::StringSliceAdditionalSpecFns;

verus! {

pub open spec fn strings_view(v: Seq<String>) -> Seq<Seq<char>> {
    v.map_values(|s: String| s@)
}

/// A download kind names a resolution and a file extension: `<res>-<ext>`.
pub open spec fn kind_text(resolution: Seq<char>, extension: Seq<char>) -> Seq<char> {
    resolution + "-"@ + extension
}

/// Every resolution combined with every extension, resolutions varying
/// slowest: the order in which kinds are preferred.
pub open spec fn kinds_of(resolutions: Seq<Seq<char>>, extensions: Seq<Seq<char>>) -> Seq<
    Seq<char>,
>
    decreases resolutions.len(),
{
    if resolutions.len() == 0 {
        seq![]
    } else {
        kinds_of(resolutions.drop_last(), extensions) + extensions.map_values(
            |e: Seq<char>| kind_text(resolutions.last(), e),
        )
    }
}

fn kind(resolution: &String, extension: &String) -> (r: String)
    ensures
        r@ == kind_text(resolution@, extension@),
{
    let mut s = resolution.clone();
    s.append("-");
    s.append(extension.as_str());
    s
}

/// The download kinds to try, in order of preference.
pub fn download_kinds(resolutions: &Vec<String>, extensions: &Vec<String>) -> (r: Vec<String>)
    ensures
        strings_view(r@) == kinds_of(strings_view(resolutions@), strings_view(extensions@)),
{
    let ghost rs = strings_view(resolutions@);
    let ghost es = strings_view(extensions@);
    let mut r: Vec<String> = Vec::new();
    let mut i: usize = 0;
    while i < resolutions.len()
        invariant
            i <= resolutions@.len(),
            rs == strings_view(resolutions@),
            es == strings_view(extensions@),
            strings_view(r@) =~= kinds_of(rs.take(i as int), es),
        decreases resolutions.len() - i,
    {
        let ghost before = strings_view(r@);
        let mut j: usize = 0;
        while j < extensions.len()
            invariant
                i < resolutions@.len(),
                j <= extensions@.len(),
                rs == strings_view(resolutions@),
                es == strings_view(extensions@),
                strings_view(r@) =~= before + es.take(j as int).map_values(
                    |e: Seq<char>| kind_text(rs[i as int], e),
                ),
            decreases extensions.len() - j,
        {
            let k = kind(&resolutions[i], &extensions[j]);
            let ghost prev = r@;
            r.push(k);
            assert(strings_view(r@) =~= strings_view(prev).push(k@));
            assert(es.take(j + 1) =~= es.take(j as int).push(es[j as int]));
            j = j + 1;
        }
        assert(es.take(extensions@.len() as int) =~= es);
        assert(rs.take(i + 1).drop_last() =~= rs.take(i as int));
        i = i + 1;
    }
    assert(rs.take(resolutions@.len() as int) =~= rs);
    r
}

/// The part of a remote listing the selection reads: one downloadable file's
/// kind attribute and link, where present.
#[derive(Debug)]
pub struct DownloadEntry {
    pub attribute: Option<String>,
    pub link: Option<String>,
}

pub open spec fn attribute_is(e: DownloadEntry, kind: Seq<char>) -> bool {
    e.attribute matches Some(a) && a@ == kind
}

/// The first entry below `n` whose attribute is `kind`.
pub open spec fn first_entry(entries: Seq<DownloadEntry>, kind: Seq<char>, n: int) -> Option<int>
    decreases n,
{
    if n <= 0 {
        None
    } else {
        match first_entry(entries, kind, n - 1) {
            Some(j) => Some(j),
            None => if attribute_is(entries[n - 1], kind) {
                Some(n - 1)
            } else {
                None
            },
        }
    }
}

/// For each kind in order, the first entry of that kind, kept when it has a link.
pub open spec fn selected(kinds: Seq<Seq<char>>, entries: Seq<DownloadEntry>) -> Seq<usize>
    decreases kinds.len(),
{
    if kinds.len() == 0 {
        seq![]
    } else {
        selected(kinds.drop_last(), entries) + match first_entry(
            entries,
            kinds.last(),
            entries.len() as int,
        ) {
            Some(j) => if entries[j].link is Some {
                seq![j as usize]
            } else {
                seq![]
            },
            None => seq![],
        }
    }
}

/// The first entry whose attribute is `kind`.
pub fn find_entry(entries: &Vec<DownloadEntry>, kind: &String) -> (r: Option<usize>)
    ensures
        r matches Some(j) ==> j < entries@.len() && first_entry(entries@, kind@, entries@.len() as int)
            == Some(j as int),
        r is None ==> first_entry(entries@, kind@, entries@.len() as int) is None,
{
    let mut i: usize = 0;
    while i < entries.len()
        invariant
            i <= entries@.len(),
            first_entry(entries@, kind@, i as int) is None,
        decreases entries.len() - i,
    {
        let hit = match &entries[i].attribute {
            Some(a) => bytes_equal(a.as_str().as_bytes(), kind.as_str().as_bytes()),
            None => false,
        };
        proof {
            if let Some(a) = entries@[i as int].attribute {
                vstd::utf8::encode_utf8_decode_utf8(a@);
                vstd::utf8::encode_utf8_decode_utf8(kind@);
            }
        }
        if hit {
            assert(first_entry(entries@, kind@, i + 1) == Some(i as int));
            proof {
                lemma_first_entry_stable(entries@, kind@, i + 1, entries@.len() as int);
            }
            return Some(i);
        }
        i = i + 1;
    }
    None
}

proof fn lemma_first_entry_stable(entries: Seq<DownloadEntry>, kind: Seq<char>, n: int, m: int)
    requires
        0 <= n <= m,
        first_entry(entries, kind, n) is Some,
    ensures
        first_entry(entries, kind, m) == first_entry(entries, kind, n),
    decreases m - n,
{
    if m > n {
        lemma_first_entry_stable(entries, kind, n, m - 1);
    }
}

/// The entries to fetch: for each kind, in order of preference, the first
/// entry of that kind, when it has a link.
pub fn select_downloads(kinds: &Vec<String>, entries: &Vec<DownloadEntry>) -> (r: Vec<usize>)
    ensures
        r@ == selected(strings_view(kinds@), entries@),
{
    let ghost ks = strings_view(kinds@);
    let mut r: Vec<usize> = Vec::new();
    let mut i: usize = 0;
    while i < kinds.len()
        invariant
            i <= kinds@.len(),
            ks == strings_view(kinds@),
            r@ == selected(ks.take(i as int), entries@),
        decreases kinds.len() - i,
    {
        assert(ks.take(i + 1).drop_last() =~= ks.take(i as int));
        assert(ks.take(i + 1).last() == kinds@[i as int]@);
        match find_entry(entries, &kinds[i]) {
            Some(j) => {
                if entries[j].link.is_some() {
                    r.push(j);
                }
            },
            None => {},
        }
        i = i + 1;
    }
    assert(ks.take(kinds@.len() as int) =~= ks);
    r
}

/// The next page of the remote listing: paging stops on a status other than
/// 200 or on an empty page; otherwise the offset moves past the assets found.
pub open spec fn next_offset(offset: usize, status: u16, found: usize) -> Option<usize> {
    if status != 200 || found == 0 {
        None
    } else {
        Some((offset + found) as usize)
    }
}

/// The offset of the next page to request, or `None` when paging stops.
pub fn next_page(offset: usize, status: u16, found: usize) -> (r: Option<usize>)
    requires
        offset + found <= usize::MAX,
    ensures
        r == next_offset(offset, status, found),
{
    if status != 200 || found == 0 {
        None
    } else {
        Some(offset + found)
    }
}

pub open spec fn asset_metadata(category: Seq<char>, kind: Seq<char>, method: Seq<char>) -> Seq<
    char,
> {
    "{\n \"category\": \""@ + category + "\",\n \"type\": \""@ + kind + "\",\n \"method\": \""@
        + method + "\"\n}"@
}

/// The sidecar record kept for each downloaded asset.
pub fn asset_metadata_text(category: &str, kind: &str, method: &str) -> (r: String)
    ensures
        r@ == asset_metadata(category@, kind@, method@),
{
    let mut s = String::from_str("{\n \"category\": \"");
    s.append(category);
    s.append("\",\n \"type\": \"");
    s.append(kind);
    s.append("\",\n \"method\": \"");
    s.append(method);
    s.append("\"\n}");
    s
}

} // verus!
