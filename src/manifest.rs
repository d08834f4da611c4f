use vstd::prelude::*;
use vstd::string::*;
use crate::error::Error;
use crate::text::{last_piece, matches_at, split_spec, str_eq};

verus! {

/// A classification label of manifest entries.
#[derive(Debug)]
pub struct Tag {
    pub id: String,
    pub name: String,
    pub filter: bool,
}

/// A tag as (id, name, filter).
pub type TagView = (Seq<char>, Seq<char>, bool);

impl View for Tag {
    type V = TagView;

    open spec fn view(&self) -> TagView {
        (self.id@, self.name@, self.filter)
    }
}

pub open spec fn tags_view(s: Seq<Tag>) -> Seq<TagView> {
    s.map_values(|t: Tag| t@)
}

/// An entry of a manifest: a version id and where its descriptor is.
#[derive(Debug)]
pub struct Version {
    pub id: String,
    pub url: String,
    pub tags: Vec<Tag>,
}

/// An index of available versions.
#[derive(Debug)]
pub struct Manifest {
    pub tags: Vec<Tag>,
    pub versions: Vec<Version>,
}

impl Manifest {
    /// The first entry with this id; `None` exactly when there is none.
    pub fn get(&self, id: &str) -> (r: Option<&Version>)
        ensures
            r is None <==> forall|i: int| 0 <= i < self.versions@.len() ==> #[trigger] self.versions@[i].id@ != id@,
            r matches Some(v) ==> exists|i: int|
                0 <= i < self.versions@.len() && self.versions@[i] == *v && v.id@ == id@ && forall|j: int|
                    0 <= j < i ==> #[trigger] self.versions@[j].id@ != id@,
    {
        let mut i: usize = 0;
        while i < self.versions.len()
            invariant
                i <= self.versions@.len(),
                forall|j: int| 0 <= j < i ==> #[trigger] self.versions@[j].id@ != id@,
            decreases self.versions@.len() - i,
        {
            if str_eq(self.versions[i].id.as_str(), id) {
                return Some(&self.versions[i]);
            }
            i += 1;
        }
        None
    }

    /// The entry with this id, or `NotFound`.
    pub fn find(&self, id: &str) -> (r: Result<&Version, Error>)
        ensures
            r is Err <==> forall|i: int| 0 <= i < self.versions@.len() ==> #[trigger] self.versions@[i].id@ != id@,
            r matches Err(e) ==> e == Error::NotFound,
            r matches Ok(v) ==> v.id@ == id@ && exists|i: int|
                0 <= i < self.versions@.len() && self.versions@[i] == *v,
    {
        match self.get(id) {
            Some(v) => Ok(v),
            None => Err(Error::NotFound),
        }
    }
}

pub open spec fn latest_tag() -> TagView {
    ("latest"@, "Latest"@, false)
}

pub open spec fn recommended_tag() -> TagView {
    ("recommended"@, "Recommended"@, false)
}

fn make_tag(id: &str, name: &str, filter: bool) -> (r: Tag)
    ensures
        r@ == (id@, name@, filter),
{
    Tag { id: String::from_str(id), name: String::from_str(name), filter }
}

fn tag_eq(a: &Tag, b: &Tag) -> (r: bool)
    ensures
        r == (a@ == b@),
{
    a.filter == b.filter && str_eq(a.id.as_str(), b.id.as_str()) && str_eq(a.name.as_str(), b.name.as_str())
}

/// A version as the base manifest lists it.
#[derive(Debug)]
pub struct VanillaEntry {
    pub id: String,
    pub url: String,
    /// `release`, `snapshot`, `old_alpha`, `old_beta` or another kind.
    pub kind: String,
}

/// The display name of a version kind.
pub open spec fn kind_name(kind: Seq<char>) -> Seq<char> {
    if kind == "release"@ {
        "Release"@
    } else if kind == "snapshot"@ {
        "Snapshot"@
    } else if kind == "old_alpha"@ {
        "Alpha"@
    } else if kind == "old_beta"@ {
        "Beta"@
    } else {
        kind
    }
}

pub open spec fn kind_tag(kind: Seq<char>) -> TagView {
    (kind, kind_name(kind), true)
}

/// The tags of a base manifest entry: its kind, and `latest` when it is
/// the latest release or snapshot.
pub open spec fn vanilla_tags(e: VanillaEntry, release: Seq<char>, snapshot: Seq<char>) -> Seq<TagView> {
    if e.id@ == release || e.id@ == snapshot {
        seq![kind_tag(e.kind@), latest_tag()]
    } else {
        seq![kind_tag(e.kind@)]
    }
}

fn kind_tag_of(kind: &String) -> (r: Tag)
    ensures
        r@ == kind_tag(kind@),
{
    let name = if str_eq(kind.as_str(), "release") {
        String::from_str("Release")
    } else if str_eq(kind.as_str(), "snapshot") {
        String::from_str("Snapshot")
    } else if str_eq(kind.as_str(), "old_alpha") {
        String::from_str("Alpha")
    } else if str_eq(kind.as_str(), "old_beta") {
        String::from_str("Beta")
    } else {
        kind.clone()
    };
    Tag { id: kind.clone(), name, filter: true }
}

fn contains_tag(tags: &Vec<Tag>, t: &Tag) -> (r: bool)
    ensures
        r == tags_view(tags@).contains(t@),
{
    let mut i: usize = 0;
    while i < tags.len()
        invariant
            i <= tags@.len(),
            forall|j: int| 0 <= j < i ==> #[trigger] tags@[j]@ != t@,
        decreases tags@.len() - i,
    {
        if tag_eq(&tags[i], t) {
            assert(tags_view(tags@)[i as int] == t@);
            return true;
        }
        i += 1;
    }
    assert(forall|j: int| 0 <= j < tags_view(tags@).len() ==> #[trigger] tags_view(tags@)[j] != t@);
    false
}

/// Builds the base manifest from its latest release and snapshot ids and its
/// entries. The manifest's tags are `latest` and each entry's kind tag, each once.
pub fn vanilla_manifest(release: &str, snapshot: &str, entries: &Vec<VanillaEntry>) -> (r: Manifest)
    ensures
        r.versions@.len() == entries@.len(),
        forall|i: int|
            0 <= i < entries@.len() ==> {
                &&& #[trigger] r.versions@[i].id@ == entries@[i].id@
                &&& r.versions@[i].url@ == entries@[i].url@
                &&& tags_view(r.versions@[i].tags@) == vanilla_tags(entries@[i], release@, snapshot@)
            },
        tags_view(r.tags@).no_duplicates(),
        tags_view(r.tags@).contains(latest_tag()),
        forall|i: int| 0 <= i < entries@.len() ==> tags_view(r.tags@).contains(#[trigger] kind_tag(entries@[i].kind@)),
        forall|j: int|
            0 <= j < r.tags@.len() ==> #[trigger] r.tags@[j]@ == latest_tag() || exists|i: int|
                0 <= i < entries@.len() && r.tags@[j]@ == kind_tag(entries@[i].kind@),
{
    proof {
        reveal_strlit("latest");
        reveal_strlit("Latest");
    }
    let latest = make_tag("latest", "Latest", false);
    let mut tags: Vec<Tag> = vec![make_tag("latest", "Latest", false)];
    let mut versions: Vec<Version> = Vec::new();
    let mut i: usize = 0;
    assert(tags_view(tags@)[0] == latest_tag());
    while i < entries.len()
        invariant
            i <= entries@.len(),
            latest@ == latest_tag(),
            versions@.len() == i,
            forall|k: int|
                0 <= k < i ==> {
                    &&& #[trigger] versions@[k].id@ == entries@[k].id@
                    &&& versions@[k].url@ == entries@[k].url@
                    &&& tags_view(versions@[k].tags@) == vanilla_tags(entries@[k], release@, snapshot@)
                },
            tags_view(tags@).no_duplicates(),
            tags_view(tags@).contains(latest_tag()),
            forall|k: int| 0 <= k < i ==> tags_view(tags@).contains(#[trigger] kind_tag(entries@[k].kind@)),
            forall|j: int|
                0 <= j < tags@.len() ==> #[trigger] tags@[j]@ == latest_tag() || exists|k: int|
                    0 <= k < i && tags@[j]@ == kind_tag(entries@[k].kind@),
        decreases entries@.len() - i,
    {
        let e = &entries[i];
        let t = kind_tag_of(&e.kind);
        let ghost tv = tags_view(tags@);
        if !contains_tag(&tags, &t) {
            let ghost tt = t@;
            tags.push(t);
            assert(tags_view(tags@) =~= tv.push(tt));
            assert(tags_view(tags@)[tv.len() as int] == tt);
        }
        let mut own = vec![kind_tag_of(&e.kind)];
        if str_eq(e.id.as_str(), release) || str_eq(e.id.as_str(), snapshot) {
            own.push(make_tag("latest", "Latest", false));
        }
        assert(tags_view(own@) =~= vanilla_tags(*e, release@, snapshot@));
        versions.push(Version { id: e.id.clone(), url: e.url.clone(), tags: own });
        proof {
            let w0 = choose|w: int| 0 <= w < tv.len() && tv[w] == latest_tag();
            assert(tags_view(tags@)[w0] == tv[w0]);
            assert forall|k: int| 0 <= k <= i implies tags_view(tags@).contains(#[trigger] kind_tag(entries@[k].kind@)) by {
                if k < i {
                    let w = choose|w: int| 0 <= w < tv.len() && tv[w] == kind_tag(entries@[k].kind@);
                    assert(tags_view(tags@)[w] == tv[w]);
                }
            }
            assert forall|j: int| 0 <= j < tags@.len() implies #[trigger] tags@[j]@ == latest_tag() || exists|k: int|
                0 <= k < i + 1 && tags@[j]@ == kind_tag(entries@[k].kind@) by {
                if j < tv.len() {
                    assert(tags_view(tags@)[j] == tv[j]);
                }
            }
        }
        i += 1;
    }
    Manifest { tags, versions }
}

/// The descriptor location of an overlay build listed in the overlay
/// repository's metadata.
pub open spec fn installer_url_spec(build: Seq<char>) -> Seq<char> {
    "https://maven.minecraftforge.net/net/minecraftforge/forge/"@ + build + "/forge-"@ + build
        + "-installer.jar"@
}

/// Builds the overlay manifest from the build names of the repository
/// metadata: each build's id is its last `-` piece; no entry has tags.
pub fn maven_manifest(builds: &Vec<String>) -> (r: Manifest)
    ensures
        r.tags@.len() == 0,
        r.versions@.len() == builds@.len(),
        forall|i: int|
            0 <= i < builds@.len() ==> {
                &&& #[trigger] r.versions@[i].id@ == split_spec(builds@[i]@, '-').last()
                &&& r.versions@[i].url@ == installer_url_spec(builds@[i]@)
                &&& r.versions@[i].tags@.len() == 0
            },
{
    let mut versions: Vec<Version> = Vec::new();
    let mut i: usize = 0;
    while i < builds.len()
        invariant
            i <= builds@.len(),
            versions@.len() == i,
            forall|k: int|
                0 <= k < i ==> {
                    &&& #[trigger] versions@[k].id@ == split_spec(builds@[k]@, '-').last()
                    &&& versions@[k].url@ == installer_url_spec(builds@[k]@)
                    &&& versions@[k].tags@.len() == 0
                },
        decreases builds@.len() - i,
    {
        let b = builds[i].as_str();
        let mut url = String::from_str("https://maven.minecraftforge.net/net/minecraftforge/forge/");
        url.append(b);
        url.append("/forge-");
        url.append(b);
        url.append("-installer.jar");
        versions.push(Version { id: last_piece(b, '-'), url, tags: Vec::new() });
        i += 1;
    }
    Manifest { tags: Vec::new(), versions }
}

/// Whether `s` ends with `suffix`.
pub open spec fn ends_with_spec(s: Seq<char>, suffix: Seq<char>) -> bool {
    suffix.len() <= s.len() && s.skip(s.len() - suffix.len()) == suffix
}

fn ends_with(s: &str, suffix: &str) -> (r: bool)
    ensures
        r == ends_with_spec(s@, suffix@),
{
    let n = s.unicode_len();
    let k = suffix.unicode_len();
    if k > n {
        return false;
    }
    assert(s@.skip(n - k) =~= s@.subrange(n - k, n as int));
    matches_at(s, suffix, n - k)
}

/// A row of the legacy overlay download listing: the build's id, whether it
/// is starred as recommended, and the targets of its download links.
#[derive(Debug)]
pub struct ListingRow {
    pub id: String,
    pub recommended: bool,
    pub links: Vec<Option<String>>,
}

/// An entry as (id, url, tags).
pub type EntryView = (Seq<char>, Seq<char>, Seq<TagView>);

pub open spec fn entry_view(v: Version) -> EntryView {
    (v.id@, v.url@, tags_view(v.tags@))
}

pub open spec fn installer_suffix() -> Seq<char> {
    "installer.jar"@
}

/// The tags of a listing row: `latest` for the first row, `recommended` for a
/// starred one.
pub open spec fn row_tags(first: bool, recommended: bool) -> Seq<TagView> {
    (if first {
        seq![latest_tag()]
    } else {
        Seq::empty()
    }) + (if recommended {
        seq![recommended_tag()]
    } else {
        Seq::empty()
    })
}

/// One entry for each link of a row that points at an installer.
pub open spec fn link_entries(id: Seq<char>, links: Seq<Option<String>>, tags: Seq<TagView>) -> Seq<EntryView>
    decreases links.len(),
{
    if links.len() == 0 {
        Seq::empty()
    } else {
        link_entries(id, links.drop_last(), tags) + if links.last() is Some && ends_with_spec(
            (links.last()->0)@,
            installer_suffix(),
        ) {
            seq![(id, (links.last()->0)@, tags)]
        } else {
            Seq::empty()
        }
    }
}

/// The entries of the listing, row by row.
pub open spec fn listing_entries(rows: Seq<ListingRow>) -> Seq<EntryView>
    decreases rows.len(),
{
    if rows.len() == 0 {
        Seq::empty()
    } else {
        let r = rows.last();
        listing_entries(rows.drop_last()) + link_entries(r.id@, r.links@, row_tags(rows.len() == 1, r.recommended))
    }
}

fn row_tag_list(first: bool, recommended: bool) -> (r: Vec<Tag>)
    ensures
        tags_view(r@) == row_tags(first, recommended),
{
    proof {
        reveal_strlit("latest");
        reveal_strlit("Latest");
        reveal_strlit("recommended");
        reveal_strlit("Recommended");
    }
    let mut r: Vec<Tag> = Vec::new();
    if first {
        r.push(make_tag("latest", "Latest", false));
    }
    if recommended {
        r.push(make_tag("recommended", "Recommended", false));
    }
    assert(tags_view(r@) =~= row_tags(first, recommended));
    r
}

/// Builds the overlay manifest from the legacy download listing. Its tags are
/// `latest` and `recommended`.
pub fn listing_manifest(rows: &Vec<ListingRow>) -> (r: Manifest)
    ensures
        tags_view(r.tags@) == seq![latest_tag(), recommended_tag()],
        r.versions@.map_values(|v: Version| entry_view(v)) == listing_entries(rows@),
{
    proof {
        reveal_strlit("latest");
        reveal_strlit("Latest");
        reveal_strlit("recommended");
        reveal_strlit("Recommended");
    }
    let tags = vec![make_tag("latest", "Latest", false), make_tag("recommended", "Recommended", false)];
    assert(tags_view(tags@) =~= seq![latest_tag(), recommended_tag()]);
    let mut versions: Vec<Version> = Vec::new();
    let mut i: usize = 0;
    while i < rows.len()
        invariant
            i <= rows@.len(),
            versions@.map_values(|v: Version| entry_view(v)) == listing_entries(rows@.take(i as int)),
        decreases rows@.len() - i,
    {
        let row = &rows[i];
        assert(rows@.take(i + 1).drop_last() =~= rows@.take(i as int));
        let ghost base = versions@.map_values(|v: Version| entry_view(v));
        let ghost tv = row_tags(i == 0, row.recommended);
        let mut j: usize = 0;
        while j < row.links.len()
            invariant
                j <= row.links@.len(),
                tv == row_tags(i == 0, row.recommended),
                versions@.map_values(|v: Version| entry_view(v)) == base + link_entries(
                    row.id@,
                    row.links@.take(j as int),
                    tv,
                ),
            decreases row.links@.len() - j,
        {
            assert(row.links@.take(j + 1).drop_last() =~= row.links@.take(j as int));
            let ghost prev = versions@;
            let ghost link = row.links@[j as int];
            let ghost add = if link is Some && ends_with_spec((link->0)@, installer_suffix()) {
                seq![(row.id@, (link->0)@, tv)]
            } else {
                Seq::<EntryView>::empty()
            };
            assert(row.links@.take(j + 1).last() == link);
            assert(link_entries(row.id@, row.links@.take(j + 1), tv) == link_entries(
                row.id@,
                row.links@.take(j as int),
                tv,
            ) + add);
            proof {
                reveal_strlit("installer.jar");
            }
            match &row.links[j] {
                Some(href) => {
                    if ends_with(href.as_str(), "installer.jar") {
                        let v = Version { id: row.id.clone(), url: href.clone(), tags: row_tag_list(i == 0, row.recommended) };
                        let ghost gv = v;
                        versions.push(v);
                        assert(versions@.map_values(|v: Version| entry_view(v)) =~= prev.map_values(
                            |v: Version| entry_view(v),
                        ).push(entry_view(gv)));
                        assert(tags_view(gv.tags@) == tv);
                        assert(gv.url@ == (link->0)@);
                        assert(add =~= seq![entry_view(gv)]);
                    } else {
                        assert(add =~= Seq::<EntryView>::empty());
                    }
                },
                None => {
                    assert(add =~= Seq::<EntryView>::empty());
                },
            }
            assert(versions@.map_values(|v: Version| entry_view(v)) =~= base + link_entries(
                row.id@,
                row.links@.take(j + 1),
                tv,
            ));
            j += 1;
        }
        assert(row.links@.take(row.links@.len() as int) =~= row.links@);
        i += 1;
    }
    assert(rows@.take(rows@.len() as int) =~= rows@);
    Manifest { tags, versions }
}

} // verus!
