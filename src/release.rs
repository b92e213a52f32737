//! Firmware releases as the release host lists them, and the choice of one.
use vstd::prelude::*;
use vstd::string::*;
use crate::commands::is_digit;
use crate::device::DeviceDetails;

verus! {

#[derive(Debug, Clone)]
pub struct Asset {
    pub url: String,
    pub browser_download_url: String,
    pub id: u64,
    pub node_id: String,
    pub name: String,
    pub label: Option<String>,
    pub state: String,
    pub content_type: String,
    pub size: u64,
    pub download_count: u64,
    pub created_at: String,
    pub updated_at: String,
}

#[derive(Debug, Clone)]
pub struct Release {
    pub url: String,
    pub html_url: String,
    pub assets_url: String,
    pub upload_url: String,
    pub tarball_url: Option<String>,
    pub zipball_url: Option<String>,
    pub discussion_url: Option<String>,
    pub id: u64,
    pub node_id: String,
    pub tag_name: String,
    pub target_commitish: String,
    pub name: Option<String>,
    pub body: Option<String>,
    pub draft: bool,
    pub prerelease: bool,
    pub created_at: String,
    pub published_at: Option<String>,
    pub assets: Vec<Asset>,
}

/// Which releases the user wants to see.
#[derive(Debug, Clone, Copy, PartialEq, Eq, Structural)]
pub enum Filter {
    Stable,
    PreRelease,
}

impl Default for Filter {
    fn default() -> (r: Filter)
        ensures
            r == Filter::Stable,
    {
        Filter::Stable
    }
}

impl Filter {
    pub open spec fn spec_matches(self, release: Release) -> bool {
        match self {
            Filter::Stable => !release.prerelease,
            Filter::PreRelease => release.prerelease,
        }
    }

    pub fn matches(&self, release: &Release) -> (r: bool)
        ensures
            r == self.spec_matches(*release),
    {
        match self {
            Filter::Stable => !release.prerelease,
            Filter::PreRelease => release.prerelease,
        }
    }

    /// The index of the first release that the filter lets through.
    pub fn select(&self, releases: &Vec<Release>) -> (r: Option<usize>)
        ensures
            match r {
                Some(i) => i < releases@.len() && self.spec_matches(releases@[i as int])
                    && forall|j: int| 0 <= j < i ==> !self.spec_matches(#[trigger] releases@[j]),
                None => forall|j: int| 0 <= j < releases@.len() ==> !self.spec_matches(#[trigger] releases@[j]),
            },
    {
        let mut i: usize = 0;
        while i < releases.len()
            invariant
                i <= releases@.len(),
                forall|j: int| 0 <= j < i ==> !self.spec_matches(#[trigger] releases@[j]),
            decreases releases.len() - i,
        {
            if self.matches(&releases[i]) {
                return Some(i);
            }
            i = i + 1;
        }
        None
    }
}

/// What `str::to_lowercase` returns for `s`.
pub uninterp spec fn lower_of(s: Seq<char>) -> Seq<char>;

/// Relies on `str::to_lowercase`: the result depends on the characters alone.
#[verifier::external_body]
fn lowercase(s: &str) -> (r: String)
    ensures
        r@ == lower_of(s@),
{
    s.to_lowercase()
}

/// The characters with the Unicode `White_Space` property, which
/// `char::is_whitespace` tests.
pub open spec fn is_white_space(c: char) -> bool {
    ('\u{9}' <= c && c <= '\u{d}') || c == ' ' || c == '\u{85}' || c == '\u{a0}' || c == '\u{1680}'
        || ('\u{2000}' <= c && c <= '\u{200a}') || c == '\u{2028}' || c == '\u{2029}'
        || c == '\u{202f}' || c == '\u{205f}' || c == '\u{3000}'
}

fn white_space(c: char) -> (r: bool)
    ensures
        r == is_white_space(c),
{
    ('\u{9}' <= c && c <= '\u{d}') || c == ' ' || c == '\u{85}' || c == '\u{a0}' || c == '\u{1680}'
        || ('\u{2000}' <= c && c <= '\u{200a}') || c == '\u{2028}' || c == '\u{2029}'
        || c == '\u{202f}' || c == '\u{205f}' || c == '\u{3000}'
}

/// Length of the run of white space that opens `s`.
pub open spec fn leading_white(s: Seq<char>) -> nat
    decreases s.len(),
{
    if s.len() > 0 && is_white_space(s[0]) {
        1 + leading_white(s.drop_first())
    } else {
        0
    }
}

/// Length of the run of white space that ends `s`.
pub open spec fn trailing_white(s: Seq<char>) -> nat
    decreases s.len(),
{
    if s.len() > 0 && is_white_space(s.last()) {
        1 + trailing_white(s.drop_last())
    } else {
        0
    }
}

/// `s` without its leading and trailing white space.
pub open spec fn trim_of(s: Seq<char>) -> Seq<char> {
    let a = s.skip(leading_white(s) as int);
    a.take(a.len() - trailing_white(a))
}

/// Removes leading and trailing white space, as `str::trim` does.
pub fn trim_whitespace(s: &str) -> (r: String)
    ensures
        r@ == trim_of(s@),
{
    let ghost t = s@;
    let n = s.unicode_len();
    let mut i: usize = 0;
    assert(t.skip(0) =~= t);
    while i < n && white_space(s.get_char(i))
        invariant
            n == t.len(),
            t == s@,
            i <= n,
            leading_white(t) == i + leading_white(t.skip(i as int)),
        decreases n - i,
    {
        assert(t.skip(i as int).drop_first() =~= t.skip(i as int + 1));
        i = i + 1;
    }
    proof {
        if i < n {
            assert(t.skip(i as int)[0] == t[i as int]);
        }
    }
    let ghost a = t.skip(i as int);
    let mut j: usize = n;
    assert(a.take(n - i) =~= a);
    while j > i && white_space(s.get_char(j - 1))
        invariant
            n == t.len(),
            t == s@,
            a == t.skip(i as int),
            leading_white(t) == i,
            i <= j <= n,
            trailing_white(a) == (n - j) + trailing_white(a.take(j - i)),
        decreases j - i,
    {
        assert(a.take(j - i).drop_last() =~= a.take(j - 1 - i));
        assert(a.take(j - i).last() == t[j - 1]);
        j = j - 1;
    }
    proof {
        if j > i {
            assert(a.take(j - i).last() == t[j - 1]);
        } else {
            assert(a.take(0).len() == 0);
        }
        assert(a.take(j - i) =~= t.subrange(i as int, j as int));
    }
    String::from_str(s.substring_char(i, j))
}

/// Firmware files are named `{model}_v{d}.{d}.{d}.{revision}{rest}`, where
/// `rest` is at least one character and holds no line break.
pub open spec fn spec_asset_matches(model: Seq<char>, revision: char, name: Seq<char>) -> bool {
    let m = model.len() as int;
    &&& name.len() >= m + 10
    &&& name.subrange(0, m) == model
    &&& name[m] == '_'
    &&& name[m + 1] == 'v'
    &&& is_digit(name[m + 2])
    &&& name[m + 3] == '.'
    &&& is_digit(name[m + 4])
    &&& name[m + 5] == '.'
    &&& is_digit(name[m + 6])
    &&& name[m + 7] == '.'
    &&& name[m + 8] == revision
    &&& forall|i: int| m + 9 <= i < name.len() ==> name[i] != '\n'
}

/// Whether the file `name` is firmware for a device of model `model` (in
/// lower case) and hardware revision `revision`.
pub fn asset_matches(model: &str, revision: char, name: &str) -> (r: bool)
    ensures
        r == spec_asset_matches(model@, revision, name@),
{
    let m = model.unicode_len();
    let n = name.unicode_len();
    if m > usize::MAX - 10 || n < m + 10 {
        return false;
    }
    let mut i: usize = 0;
    while i < m
        invariant
            m == model@.len(),
            n == name@.len(),
            m + 10 <= n,
            i <= m,
            forall|j: int| 0 <= j < i ==> name@[j] == model@[j],
        decreases m - i,
    {
        if name.get_char(i) != model.get_char(i) {
            return false;
        }
        i = i + 1;
    }
    assert(name@.subrange(0, m as int) =~= model@);
    let d1 = name.get_char(m + 2);
    let d2 = name.get_char(m + 4);
    let d3 = name.get_char(m + 6);
    if !(name.get_char(m) == '_' && name.get_char(m + 1) == 'v' && '0' <= d1 && d1 <= '9'
        && name.get_char(m + 3) == '.' && '0' <= d2 && d2 <= '9' && name.get_char(m + 5) == '.'
        && '0' <= d3 && d3 <= '9' && name.get_char(m + 7) == '.' && name.get_char(m + 8) == revision) {
        return false;
    }
    let mut k: usize = m + 9;
    while k < n
        invariant
            m == model@.len(),
            n == name@.len(),
            m + 9 <= k <= n,
            forall|j: int| m + 9 <= j < k ==> name@[j] != '\n',
        decreases n - k,
    {
        if name.get_char(k) == '\n' {
            return false;
        }
        k = k + 1;
    }
    true
}

/// The index of the first asset of `release` whose name fits the device
/// model `model` (in lower case) and the hardware revision `revision`.
pub fn select_asset_for(release: &Release, model: &str, revision: char) -> (r: Option<usize>)
    ensures
        match r {
            Some(i) => i < release.assets@.len()
                && spec_asset_matches(model@, revision, release.assets@[i as int].name@)
                && forall|j: int| 0 <= j < i ==> !spec_asset_matches(model@, revision, #[trigger] release.assets@[j].name@),
            None => forall|j: int| 0 <= j < release.assets@.len()
                ==> !spec_asset_matches(model@, revision, #[trigger] release.assets@[j].name@),
        },
{
    let mut i: usize = 0;
    while i < release.assets.len()
        invariant
            i <= release.assets@.len(),
            forall|j: int| 0 <= j < i ==> !spec_asset_matches(model@, revision, #[trigger] release.assets@[j].name@),
        decreases release.assets.len() - i,
    {
        if asset_matches(model, revision, release.assets[i].name.as_str()) {
            return Some(i);
        }
        i = i + 1;
    }
    None
}

/// The index of the first asset of `release` that is firmware for the
/// device: its model, trimmed and in lower case, and the last character of
/// its hardware version. A device without a hardware version gets none.
pub fn select_asset(release: &Release, details: &DeviceDetails) -> (r: Option<usize>)
    ensures
        details.hardware_version@.len() == 0 ==> r is None,
        details.hardware_version@.len() > 0 ==> {
            let model = lower_of(trim_of(details.device_model@));
            let revision = details.hardware_version@.last();
            match r {
                Some(i) => i < release.assets@.len()
                    && spec_asset_matches(model, revision, release.assets@[i as int].name@)
                    && forall|j: int| 0 <= j < i ==> !spec_asset_matches(model, revision, #[trigger] release.assets@[j].name@),
                None => forall|j: int| 0 <= j < release.assets@.len()
                    ==> !spec_asset_matches(model, revision, #[trigger] release.assets@[j].name@),
            }
        },
{
    let len = details.hardware_version.as_str().unicode_len();
    if len == 0 {
        return None;
    }
    let revision = details.hardware_version.as_str().get_char(len - 1);
    let trimmed = trim_whitespace(details.device_model.as_str());
    let model = lowercase(trimmed.as_str());
    select_asset_for(release, model.as_str(), revision)
}

} // verus!
