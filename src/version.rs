use vstd::prelude::*;
use vstd::string::*;
use crate::context::{store_path, store_path_spec};
use crate::error::Error;
use crate::library::{files_view, FileView};
use crate::rule::{path_separator_spec, Platform};
use crate::template::{bindings_map, lemma_bindings_push, substitute, Vars};
use crate::text::{join, join_spec, views};

verus! {

/// An asset object, stored under its content hash.
#[derive(Debug)]
pub struct Object {
    pub hash: String,
    pub size: u32,
}

/// An asset index: asset objects by relative name.
#[derive(Debug)]
pub struct Assets {
    pub id: String,
    pub objects: Vec<(String, Object)>,
}

/// A file of a resolved version, to be downloaded into the store.
#[derive(Debug)]
pub struct File {
    pub url: String,
    pub path: String,
    pub size: u32,
}

impl View for File {
    type V = FileView;

    open spec fn view(&self) -> FileView {
        (self.url@, self.path@, self.size)
    }
}

/// A fully resolved, install-ready version.
#[derive(Debug)]
pub struct Version {
    pub id: String,
    pub assets: Assets,
    pub game_args: Vec<String>,
    pub jvm_args: Vec<String>,
    pub libraries: Vec<File>,
    /// Paths of library archives whose contents are extracted as natives.
    pub natives: Vec<String>,
    pub main_class: String,
}

} // verus!

verus! {

/// A library file's path relative to the store.
pub open spec fn library_rel(path: Seq<char>) -> Seq<char> {
    "libraries/"@ + path
}

/// Where an asset with this hash lives below both the object store and the
/// download host: the first two characters of the hash, then the hash.
pub open spec fn asset_rel(hash: Seq<char>) -> Seq<char> {
    hash.take(2) + "/"@ + hash
}

pub open spec fn asset_file(o: Object) -> FileView {
    (
        "http://resources.download.minecraft.net/"@ + asset_rel(o.hash@),
        "assets/objects/"@ + asset_rel(o.hash@),
        o.size,
    )
}

/// The variables that every argument template may use.
pub open spec fn builtin_vars(root: Seq<char>, v: Version, p: Platform) -> Map<Seq<char>, Seq<char>> {
    map![
        "natives_directory"@ => store_path_spec(root, "natives"@),
        "assets_root"@ => store_path_spec(root, "assets"@),
        "assets_index_name"@ => v.assets.id@,
        "classpath"@ => v.classpath_spec(root, p),
    ]
}

pub open spec fn templated(args: Seq<String>, vars: Map<Seq<char>, Seq<char>>) -> Seq<Seq<char>> {
    args.map_values(|a: String| substitute(a@, vars))
}

fn push_templated(out: &mut Vec<String>, args: &Vec<String>, vars: &Vars)
    ensures
        views(final(out)@) == views(old(out)@) + templated(args@, vars@),
{
    let ghost o0 = views(out@);
    let mut i: usize = 0;
    while i < args.len()
        invariant
            i <= args@.len(),
            views(out@) == o0 + templated(args@.take(i as int), vars@),
        decreases args@.len() - i,
    {
        let ghost prev = out@;
        let t = crate::template::format(args[i].as_str(), vars);
        out.push(t);
        assert(views(out@) =~= views(prev).push(t@));
        assert(templated(args@.take(i + 1), vars@) =~= templated(args@.take(i as int), vars@).push(t@));
        i += 1;
    }
    assert(args@.take(args@.len() as int) =~= args@);
}

fn prefixed(prefix: &str, s: &str) -> (r: String)
    ensures
        r@ == prefix@ + s@,
{
    let mut r = String::from_str(prefix);
    r.append(s);
    r
}

impl Version {
    pub open spec fn classpath_spec(&self, root: Seq<char>, p: Platform) -> Seq<char> {
        join_spec(
            self.libraries@.map_values(|f: File| store_path_spec(root, library_rel(f.path@))),
            path_separator_spec(p.name@),
        )
    }

    /// Every library's store path, joined with the platform's path-list separator.
    pub fn classpath(&self, root: &str, p: &Platform) -> (r: String)
        ensures
            r@ == self.classpath_spec(root@, *p),
    {
        let mut parts: Vec<String> = Vec::new();
        let mut i: usize = 0;
        while i < self.libraries.len()
            invariant
                i <= self.libraries@.len(),
                views(parts@) == self.libraries@.take(i as int).map_values(
                    |f: File| store_path_spec(root@, library_rel(f.path@)),
                ),
            decreases self.libraries@.len() - i,
        {
            let rel = prefixed("libraries/", self.libraries[i].path.as_str());
            let ghost prev = parts@;
            let x = store_path(root, rel.as_str());
            parts.push(x);
            assert(self.libraries@.take(i + 1) =~= self.libraries@.take(i as int).push(self.libraries@[i as int]));
            assert(views(parts@) =~= views(prev).push(x@));
            assert(views(parts@) =~= self.libraries@.take(i + 1).map_values(
                |f: File| store_path_spec(root@, library_rel(f.path@)),
            ));
            i += 1;
        }
        assert(self.libraries@.take(self.libraries@.len() as int) =~= self.libraries@);
        join(&parts, p.path_separator())
    }

    /// The command line after the program name: templated JVM arguments, the
    /// main class, the caller's extra arguments, templated game arguments.
    /// Templates see the built-in variables and the caller's, the caller's
    /// winning on a shared name.
    pub fn launch_args(&self, root: &str, extra: &Vec<String>, caller: &Vars, p: &Platform) -> (r: Vec<String>)
        ensures
            views(r@) == templated(
                self.jvm_args@,
                builtin_vars(root@, *self, *p).union_prefer_right(caller@),
            ) + seq![self.main_class@] + views(extra@) + templated(
                self.game_args@,
                builtin_vars(root@, *self, *p).union_prefer_right(caller@),
            ),
    {
        let mut vars = Vars::new();
        vars.insert("natives_directory", store_path(root, "natives").as_str());
        vars.insert("assets_root", store_path(root, "assets").as_str());
        vars.insert("assets_index_name", self.assets.id.as_str());
        vars.insert("classpath", self.classpath(root, p).as_str());
        let ghost builtin = builtin_vars(root@, *self, *p);
        assert(vars@ =~= builtin);
        let ghost ce = caller.entries@;
        assert(vars@ =~= builtin.union_prefer_right(bindings_map(ce.take(0))));
        let mut i: usize = 0;
        while i < caller.entries.len()
            invariant
                ce == caller.entries@,
                i <= ce.len(),
                vars@ == builtin.union_prefer_right(bindings_map(ce.take(i as int))),
            decreases ce.len() - i,
        {
            let e = &caller.entries[i];
            vars.insert(e.0.as_str(), e.1.as_str());
            proof {
                assert(ce.take(i + 1) =~= ce.take(i as int).push(ce[i as int]));
                lemma_bindings_push(ce.take(i as int), ce[i as int]);
            }
            assert(vars@ =~= builtin.union_prefer_right(bindings_map(ce.take(i + 1))));
            i += 1;
        }
        assert(ce.take(ce.len() as int) =~= ce);
        let mut out: Vec<String> = Vec::new();
        assert(views(out@) =~= Seq::<Seq<char>>::empty());
        push_templated(&mut out, &self.jvm_args, &vars);
        let ghost o1 = views(out@);
        out.push(self.main_class.clone());
        assert(views(out@) =~= o1.push(self.main_class@));
        let mut j: usize = 0;
        let ghost o2 = views(out@);
        while j < extra.len()
            invariant
                j <= extra@.len(),
                views(out@) == o2 + views(extra@.take(j as int)),
            decreases extra@.len() - j,
        {
            let ghost prev = out@;
            out.push(extra[j].clone());
            assert(views(out@) =~= views(prev).push(extra@[j as int]@));
            assert(views(extra@.take(j + 1)) =~= views(extra@.take(j as int)).push(extra@[j as int]@));
            j += 1;
        }
        assert(extra@.take(extra@.len() as int) =~= extra@);
        push_templated(&mut out, &self.game_args, &vars);
        out
    }

    /// The library files to bring into the store, at their store-relative paths.
    pub fn library_downloads(&self) -> (r: Vec<File>)
        ensures
            files_view(r@) == self.libraries@.map_values(|f: File| (f.url@, library_rel(f.path@), f.size)),
    {
        let mut out: Vec<File> = Vec::new();
        let mut i: usize = 0;
        while i < self.libraries.len()
            invariant
                i <= self.libraries@.len(),
                files_view(out@) == self.libraries@.take(i as int).map_values(
                    |f: File| (f.url@, library_rel(f.path@), f.size),
                ),
            decreases self.libraries@.len() - i,
        {
            let f = &self.libraries[i];
            let ghost prev = out@;
            let x = File { url: f.url.clone(), path: prefixed("libraries/", f.path.as_str()), size: f.size };
            out.push(x);
            assert(self.libraries@.take(i + 1) =~= self.libraries@.take(i as int).push(self.libraries@[i as int]));
            assert(files_view(out@) =~= files_view(prev).push(x@));
            assert(files_view(out@) =~= self.libraries@.take(i + 1).map_values(
                |f: File| (f.url@, library_rel(f.path@), f.size),
            ));
            i += 1;
        }
        assert(self.libraries@.take(self.libraries@.len() as int) =~= self.libraries@);
        out
    }

    /// The asset objects to bring into the store, each at its
    /// content-addressed path. Fails with `Parse` exactly when some hash is
    /// shorter than two characters.
    pub fn asset_downloads(&self) -> (r: Result<Vec<File>, Error>)
        ensures
            r is Err <==> exists|i: int|
                0 <= i < self.assets.objects@.len() && #[trigger] self.assets.objects@[i].1.hash@.len() < 2,
            r matches Err(e) ==> e == Error::Parse,
            r matches Ok(v) ==> files_view(v@) == self.assets.objects@.map_values(
                |e: (String, Object)| asset_file(e.1),
            ),
    {
        let objs = &self.assets.objects;
        let mut out: Vec<File> = Vec::new();
        let mut i: usize = 0;
        while i < objs.len()
            invariant
                objs@ == self.assets.objects@,
                i <= objs@.len(),
                forall|j: int| 0 <= j < i ==> #[trigger] objs@[j].1.hash@.len() >= 2,
                files_view(out@) == objs@.take(i as int).map_values(|e: (String, Object)| asset_file(e.1)),
            decreases objs@.len() - i,
        {
            let o = &objs[i].1;
            let n = o.hash.unicode_len();
            if n < 2 {
                assert(self.assets.objects@[i as int].1.hash@.len() < 2);
                return Err(Error::Parse);
            }
            let mut rel = String::from_str(o.hash.substring_char(0, 2));
            rel.append("/");
            rel.append(o.hash.as_str());
            assert(o.hash@.subrange(0, 2) =~= o.hash@.take(2));
            let url = prefixed("http://resources.download.minecraft.net/", rel.as_str());
            let path = prefixed("assets/objects/", rel.as_str());
            let ghost prev = out@;
            let x = File { url, path, size: o.size };
            out.push(x);
            assert(objs@.take(i + 1) =~= objs@.take(i as int).push(objs@[i as int]));
            assert(files_view(out@) =~= files_view(prev).push(x@));
            assert(files_view(out@) =~= objs@.take(i + 1).map_values(|e: (String, Object)| asset_file(e.1)));
            i += 1;
        }
        assert(objs@.take(objs@.len() as int) =~= objs@);
        Ok(out)
    }

    /// The store-relative paths of the archives to extract as natives.
    pub fn native_archives(&self) -> (r: Vec<String>)
        ensures
            views(r@) == self.natives@.map_values(|n: String| library_rel(n@)),
    {
        let mut out: Vec<String> = Vec::new();
        let mut i: usize = 0;
        while i < self.natives.len()
            invariant
                i <= self.natives@.len(),
                views(out@) == self.natives@.take(i as int).map_values(|n: String| library_rel(n@)),
            decreases self.natives@.len() - i,
        {
            let ghost prev = out@;
            let x = prefixed("libraries/", self.natives[i].as_str());
            out.push(x);
            assert(self.natives@.take(i + 1) =~= self.natives@.take(i as int).push(self.natives@[i as int]));
            assert(views(out@) =~= views(prev).push(x@));
            assert(views(out@) =~= self.natives@.take(i + 1).map_values(|n: String| library_rel(n@)));
            i += 1;
        }
        assert(self.natives@.take(self.natives@.len() as int) =~= self.natives@);
        out
    }

    /// The store-relative path under which the asset index is kept.
    pub fn index_path(&self) -> (r: String)
        ensures
            r@ == "assets/indexes/"@ + self.assets.id@ + ".json"@,
    {
        let mut r = prefixed("assets/indexes/", self.assets.id.as_str());
        r.append(".json");
        r
    }
}

} // verus!
