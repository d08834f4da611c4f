use vstd::prelude::*;
use vstd::string::*;
use crate::arguments::{flatten, tokens, Arguments};
use crate::descriptor::{BaseDescriptor, OverlayDescriptor};
use crate::error::Error;
use crate::library::{files_view, FileView, Library};
use crate::manifest::{Manifest, Version as ManifestEntry};
use crate::rule::Platform;
use crate::text::{last_piece, split_char, split_spec, views};
use crate::version::{Assets, File, Version};

verus! {

/// What all libraries add on a platform, in order; `None` when one of them
/// lacks its native classifier.
pub open spec fn contributions(ls: Seq<Library>, p: Platform) -> Option<(Seq<FileView>, Seq<Seq<char>>)>
    decreases ls.len(),
{
    if ls.len() == 0 {
        Some((Seq::empty(), Seq::empty()))
    } else {
        match contributions(ls.drop_last(), p) {
            None => None,
            Some(prev) => match ls.last().contribution(p) {
                None => None,
                Some(c) => Some((prev.0 + c.0, prev.1 + c.1)),
            },
        }
    }
}

/// The paths of a list of files.
pub open spec fn file_paths(files: Seq<FileView>) -> Seq<Seq<char>> {
    files.map_values(|f: FileView| f.1)
}

/// Every native path is the path of one of the files.
pub open spec fn natives_listed(files: Seq<FileView>, natives: Seq<Seq<char>>) -> bool {
    forall|j: int| 0 <= j < natives.len() ==> file_paths(files).contains(#[trigger] natives[j])
}

/// The native paths that libraries contribute are paths of files that they
/// contribute too.
pub proof fn lemma_natives_listed(ls: Seq<Library>, p: Platform)
    requires
        contributions(ls, p) is Some,
    ensures
        natives_listed((contributions(ls, p)->0).0, (contributions(ls, p)->0).1),
    decreases ls.len(),
{
    if ls.len() > 0 {
        lemma_natives_listed(ls.drop_last(), p);
        let prev = contributions(ls.drop_last(), p)->0;
        let c = ls.last().contribution(p)->0;
        let files = prev.0 + c.0;
        let natives = prev.1 + c.1;
        assert forall|j: int| 0 <= j < natives.len() implies file_paths(files).contains(#[trigger] natives[j]) by {
            if j < prev.1.len() {
                assert(natives[j] == prev.1[j]);
                assert(file_paths(prev.0).contains(prev.1[j]));
                let k = choose|k: int| 0 <= k < file_paths(prev.0).len() && file_paths(prev.0)[k] == prev.1[j];
                assert(file_paths(files)[k] == file_paths(prev.0)[k]);
            } else {
                assert(c.1.len() == 1 && c.0.len() >= 1 && c.0.last().1 == c.1[0]);
                let k = files.len() - 1;
                assert(file_paths(files)[k] == c.0.last().1);
            }
        }
    }
}

/// The JVM arguments of a version described by a legacy argument string.
pub open spec fn legacy_jvm_args() -> Seq<Seq<char>> {
    seq![
        "-Djava.library.path=${natives_directory}"@,
        "-Dminecraft.launcher.brand=${launcher_name}"@,
        "-Dminecraft.launcher.version=${launcher_version}"@,
        "-cp"@,
        "${classpath}"@,
    ]
}

/// The game arguments: the legacy string split on spaces when present,
/// else the structured list.
pub open spec fn game_args_spec(legacy: Seq<char>, args: Arguments, p: Platform) -> Seq<Seq<char>> {
    if legacy.len() > 0 {
        split_spec(legacy, ' ')
    } else {
        tokens(args.game@, p)
    }
}

/// The client jar of a base version.
pub open spec fn client_file(root: BaseDescriptor) -> FileView {
    (root.downloads.client.url@, "client/"@ + root.id@ + ".jar"@, root.downloads.client.size)
}

fn legacy_jvm() -> (r: Vec<String>)
    ensures
        views(r@) == legacy_jvm_args(),
{
    let r = vec![
        String::from_str("-Djava.library.path=${natives_directory}"),
        String::from_str("-Dminecraft.launcher.brand=${launcher_name}"),
        String::from_str("-Dminecraft.launcher.version=${launcher_version}"),
        String::from_str("-cp"),
        String::from_str("${classpath}"),
    ];
    assert(views(r@) =~= legacy_jvm_args());
    r
}

fn game_args(legacy: &String, args: &Arguments, p: &Platform) -> (r: Vec<String>)
    ensures
        views(r@) == game_args_spec(legacy@, *args, *p),
{
    if legacy.unicode_len() > 0 {
        split_char(legacy.as_str(), ' ')
    } else {
        flatten(&args.game, p)
    }
}

proof fn lemma_failure_persists(ls: Seq<Library>, p: Platform, k: int)
    requires
        0 <= k <= ls.len(),
        contributions(ls.take(k), p) is None,
    ensures
        contributions(ls, p) is None,
    decreases ls.len() - k,
{
    if k < ls.len() {
        assert(ls.take(k + 1).drop_last() =~= ls.take(k));
        lemma_failure_persists(ls, p, k + 1);
    } else {
        assert(ls.take(k) =~= ls);
    }
}

fn add_libraries(ls: &Vec<Library>, p: &Platform, files: &mut Vec<File>, natives: &mut Vec<String>) -> (ok: bool)
    ensures
        ok == contributions(ls@, *p) is Some,
        ok ==> files_view(final(files)@) == files_view(old(files)@) + (contributions(ls@, *p)->0).0,
        ok ==> views(final(natives)@) == views(old(natives)@) + (contributions(ls@, *p)->0).1,
{
    let ghost f0 = files_view(files@);
    let ghost n0 = views(natives@);
    let mut i: usize = 0;
    assert(ls@.take(0) =~= Seq::<Library>::empty());
    assert(files_view(files@) =~= f0 + Seq::<FileView>::empty());
    assert(views(natives@) =~= n0 + Seq::<Seq<char>>::empty());
    while i < ls.len()
        invariant
            i <= ls@.len(),
            contributions(ls@.take(i as int), *p) is Some,
            files_view(files@) == f0 + (contributions(ls@.take(i as int), *p)->0).0,
            views(natives@) == n0 + (contributions(ls@.take(i as int), *p)->0).1,
        decreases ls@.len() - i,
    {
        assert(ls@.take(i + 1).drop_last() =~= ls@.take(i as int));
        assert(ls@.take(i + 1).last() == ls@[i as int]);
        let ghost prev = contributions(ls@.take(i as int), *p)->0;
        if !ls[i].contribute(p, files, natives) {
            proof {
                lemma_failure_persists(ls@, *p, i + 1);
            }
            return false;
        }
        let ghost c = ls@[i as int].contribution(*p)->0;
        assert(files_view(files@) =~= f0 + (prev.0 + c.0));
        assert(views(natives@) =~= n0 + (prev.1 + c.1));
        i += 1;
    }
    assert(ls@.take(ls@.len() as int) =~= ls@);
    true
}

/// Resolves a base descriptor, with its fetched asset index, into a version
/// for a platform. Fails with `Parse` exactly when a library that applies
/// lacks the native classifier for the platform.
pub fn resolve_base(root: &BaseDescriptor, assets: Assets, p: &Platform) -> (r: Result<Version, Error>)
    ensures
        contributions(root.libraries@, *p) is None ==> r == Err::<Version, Error>(Error::Parse),
        contributions(root.libraries@, *p) matches Some(c) ==> r matches Ok(v) && {
            &&& v.id@ == root.id@
            &&& v.main_class@ == root.main_class@
            &&& v.assets.id@ == root.asset_index.id@
            &&& v.assets.objects == assets.objects
            &&& files_view(v.libraries@) == seq![client_file(*root)] + c.0
            &&& views(v.natives@) == c.1
            &&& natives_listed(files_view(v.libraries@), views(v.natives@))
            &&& views(v.game_args@) == game_args_spec(root.minecraft_arguments@, root.arguments, *p)
            &&& views(v.jvm_args@) == if root.minecraft_arguments@.len() > 0 {
                legacy_jvm_args()
            } else {
                tokens(root.arguments.jvm@, *p)
            }
        },
{
    let mut assets = assets;
    assets.id = root.asset_index.id.clone();
    let game = game_args(&root.minecraft_arguments, &root.arguments, p);
    let jvm = if root.minecraft_arguments.unicode_len() > 0 {
        legacy_jvm()
    } else {
        flatten(&root.arguments.jvm, p)
    };
    let mut path = String::from_str("client/");
    path.append(root.id.as_str());
    path.append(".jar");
    let mut libraries = vec![
        File { url: root.downloads.client.url.clone(), path, size: root.downloads.client.size },
    ];
    assert(files_view(libraries@) =~= seq![client_file(*root)]);
    let mut natives: Vec<String> = Vec::new();
    assert(views(natives@) =~= Seq::<Seq<char>>::empty());
    if !add_libraries(&root.libraries, p, &mut libraries, &mut natives) {
        return Err(Error::Parse);
    }
    proof {
        lemma_natives_listed(root.libraries@, *p);
        let c = contributions(root.libraries@, *p)->0;
        let files = files_view(libraries@);
        assert(files == seq![client_file(*root)] + c.0);
        assert forall|j: int| 0 <= j < c.1.len() implies file_paths(files).contains(#[trigger] c.1[j]) by {
            assert(file_paths(c.0).contains(c.1[j]));
            let k = choose|k: int| 0 <= k < file_paths(c.0).len() && file_paths(c.0)[k] == c.1[j];
            assert(file_paths(files)[k + 1] == file_paths(c.0)[k]);
        }
    }
    Ok(
        Version {
            id: root.id.clone(),
            main_class: root.main_class.clone(),
            assets,
            game_args: game,
            jvm_args: jvm,
            libraries,
            natives,
        },
    )
}

/// The location of the universal artifact of an overlay build.
pub open spec fn universal_url_spec(build: Seq<char>) -> Seq<char> {
    "https://maven.minecraftforge.net/net/minecraftforge/forge/"@ + build + "/forge-"@ + build
        + "-universal.jar"@
}

/// The build identifier of an overlay: the parent id and the last `-` piece
/// of the overlay id.
pub open spec fn build_id_spec(parent_id: Seq<char>, overlay_id: Seq<char>) -> Seq<char> {
    parent_id + "-"@ + split_spec(overlay_id, '-').last()
}

/// An overlay library as a file: its own artifact, or the overlay's universal
/// artifact when it names no location.
pub open spec fn overlay_file(l: Library, build: Seq<char>) -> FileView {
    let a = l.downloads.artifact;
    if a.url@.len() > 0 {
        a.file()
    } else {
        (universal_url_spec(build), a.path@, a.size)
    }
}

pub open spec fn overlay_files(ls: Seq<Library>, build: Seq<char>) -> Seq<FileView> {
    ls.map_values(|l: Library| overlay_file(l, build))
}

fn universal_url(build: &str) -> (r: String)
    ensures
        r@ == universal_url_spec(build@),
{
    let mut u = String::from_str("https://maven.minecraftforge.net/net/minecraftforge/forge/");
    u.append(build);
    u.append("/forge-");
    u.append(build);
    u.append("-universal.jar");
    u
}

/// Merges an overlay descriptor onto its resolved parent. The overlay's
/// libraries come after the parent's; natives and asset index are the
/// parent's; a legacy argument string replaces the game arguments and keeps
/// the parent's JVM arguments, else the overlay's structured lists replace both.
pub fn merge_overlay(root: &OverlayDescriptor, parent: Version, p: &Platform) -> (r: Version)
    ensures
        r.id@ == root.id@,
        r.main_class@ == root.main_class@,
        r.assets == parent.assets,
        r.natives == parent.natives,
        natives_listed(files_view(parent.libraries@), views(parent.natives@)) ==> natives_listed(
            files_view(r.libraries@),
            views(r.natives@),
        ),
        files_view(r.libraries@) == files_view(parent.libraries@) + overlay_files(
            root.libraries@,
            build_id_spec(parent.id@, root.id@),
        ),
        views(r.game_args@) == game_args_spec(root.minecraft_arguments@, root.arguments, *p),
        views(r.jvm_args@) == if root.minecraft_arguments@.len() > 0 {
            views(parent.jvm_args@)
        } else {
            tokens(root.arguments.jvm@, *p)
        },
{
    let Version { id: parent_id, assets, game_args: _, jvm_args: parent_jvm, libraries, natives, main_class: _ } =
        parent;
    let game = game_args(&root.minecraft_arguments, &root.arguments, p);
    let jvm = if root.minecraft_arguments.unicode_len() > 0 {
        parent_jvm
    } else {
        flatten(&root.arguments.jvm, p)
    };
    let mut build = String::from_str(parent_id.as_str());
    build.append("-");
    let tail = last_piece(root.id.as_str(), '-');
    build.append(tail.as_str());
    let url = universal_url(build.as_str());
    let mut libraries = libraries;
    let ghost f0_libs = libraries@;
    let ghost f0 = files_view(libraries@);
    let ls = &root.libraries;
    let mut i: usize = 0;
    while i < ls.len()
        invariant
            i <= ls@.len(),
            url@ == universal_url_spec(build@),
            files_view(libraries@) == f0 + overlay_files(ls@.take(i as int), build@),
        decreases ls@.len() - i,
    {
        let a = &ls[i].downloads.artifact;
        let ghost prev = libraries@;
        let f = if a.url.unicode_len() > 0 {
            a.to_file()
        } else {
            File { url: url.clone(), path: a.path.clone(), size: a.size }
        };
        assert(f@ == overlay_file(ls@[i as int], build@));
        libraries.push(f);
        assert(files_view(libraries@) =~= files_view(prev).push(f@));
        assert(overlay_files(ls@.take(i + 1), build@) =~= overlay_files(ls@.take(i as int), build@).push(
            overlay_file(ls@[i as int], build@),
        ));
        assert(files_view(libraries@) =~= f0 + overlay_files(ls@.take(i + 1), build@));
        i += 1;
    }
    assert(ls@.take(ls@.len() as int) =~= ls@);
    proof {
        let pf = files_view(f0_libs);
        let files = files_view(libraries@);
        if natives_listed(pf, views(natives@)) {
            assert forall|j: int| 0 <= j < views(natives@).len() implies file_paths(files).contains(
                #[trigger] views(natives@)[j],
            ) by {
                assert(file_paths(pf).contains(views(natives@)[j]));
                let k = choose|k: int| 0 <= k < file_paths(pf).len() && file_paths(pf)[k] == views(natives@)[j];
                assert(file_paths(files)[k] == file_paths(pf)[k]);
            }
        }
    }
    Version {
        id: root.id.clone(),
        main_class: root.main_class.clone(),
        assets,
        game_args: game,
        jvm_args: jvm,
        libraries,
        natives,
    }
}

} // verus!

verus! {

/// The base manifest entry that an overlay inherits from; `NotFound`
/// exactly when no entry has the overlay's parent id.
pub fn overlay_parent<'a>(base: &'a Manifest, overlay: &OverlayDescriptor) -> (r: Result<&'a ManifestEntry, Error>)
    ensures
        r is Err <==> forall|i: int|
            0 <= i < base.versions@.len() ==> #[trigger] base.versions@[i].id@ != overlay.inherits_from@,
        r matches Err(e) ==> e == Error::NotFound,
        r matches Ok(v) ==> v.id@ == overlay.inherits_from@,
{
    base.find(overlay.inherits_from.as_str())
}

} // verus!
