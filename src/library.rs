use vstd::prelude::*;
use vstd::string::*;
use crate::rule::{all_hold, permitted, Platform, Rule};
use crate::text::{find_key, lookup, replace_all, replace_spec};
use crate::version::File;

verus! {

/// A library entry of a descriptor.
#[derive(Debug)]
pub struct Library {
    pub name: String,
    pub downloads: Downloads,
    pub extract: Extract,
    /// Classifier key of the native component for each OS name.
    pub natives: Vec<(String, String)>,
    pub rules: Vec<Rule>,
}

/// The downloadable files of a library.
#[derive(Debug)]
pub struct Downloads {
    pub artifact: Artifact,
    /// Native components keyed by classifier.
    pub classifiers: Vec<(String, Artifact)>,
}

/// A downloadable file of a library.
#[derive(Debug)]
pub struct Artifact {
    pub path: String,
    pub url: String,
    pub size: u32,
}

impl Default for Artifact {
    fn default() -> (r: Self)
        ensures
            r.path@.len() == 0,
            r.url@.len() == 0,
            r.size == 0,
    {
        Artifact { path: String::new(), url: String::new(), size: 0 }
    }
}

/// How the native archive of a library is extracted.
#[derive(Debug)]
pub struct Extract {
    pub default: bool,
    pub exclude: Vec<String>,
}

impl Default for Extract {
    fn default() -> (r: Self)
        ensures
            r.default,
            r.exclude@.len() == 0,
    {
        Extract { default: true, exclude: Vec::new() }
    }
}

/// A file as (url, path, size).
pub type FileView = (Seq<char>, Seq<char>, u32);

impl Artifact {
    pub open spec fn file(&self) -> FileView {
        (self.url@, self.path@, self.size)
    }

    pub fn to_file(&self) -> (r: File)
        ensures
            r@ == self.file(),
    {
        File { url: self.url.clone(), path: self.path.clone(), size: self.size }
    }
}

pub open spec fn arch_marker() -> Seq<char> {
    seq!['$', '{', 'a', 'r', 'c', 'h', '}']
}

impl Library {
    /// What a library adds to a resolved version on a platform: its files and
    /// the paths of its native archives that are not extracted by default.
    /// `None` when the native classifier for the platform is missing.
    pub open spec fn contribution(&self, p: Platform) -> Option<(Seq<FileView>, Seq<Seq<char>>)> {
        if !all_hold(self.rules@, p) {
            Some((Seq::empty(), Seq::empty()))
        } else {
            let main = if self.downloads.artifact.url@.len() > 0 {
                seq![self.downloads.artifact.file()]
            } else {
                Seq::empty()
            };
            if self.natives@.len() == 0 {
                Some((main, Seq::empty()))
            } else {
                match lookup(self.natives@, p.name@) {
                    None => None,
                    Some(k) => match lookup(
                        self.downloads.classifiers@,
                        replace_spec(k@, arch_marker(), p.arch_bits@),
                    ) {
                        None => None,
                        Some(a) => Some(
                            (
                                main.push(a.file()),
                                if self.extract.default {
                                    Seq::empty()
                                } else {
                                    seq![a.path@]
                                },
                            ),
                        ),
                    },
                }
            }
        }
    }

    /// Appends what the library contributes; `false`, with the lists in an
    /// unspecified state, when its native classifier is missing.
    pub fn contribute(&self, p: &Platform, files: &mut Vec<File>, natives: &mut Vec<String>) -> (ok: bool)
        ensures
            ok == self.contribution(*p) is Some,
            ok ==> files_view(final(files)@) == files_view(old(files)@) + (self.contribution(*p)->0).0,
            ok ==> crate::text::views(final(natives)@) == crate::text::views(old(natives)@)
                + (self.contribution(*p)->0).1,
    {
        proof {
            reveal_strlit("${arch}");
        }
        assert("${arch}"@ =~= arch_marker());
        if !permitted(&self.rules, p) {
            assert(files_view(files@) =~= files_view(files@) + Seq::<FileView>::empty());
            assert(crate::text::views(natives@) =~= crate::text::views(natives@) + Seq::<Seq<char>>::empty());
            return true;
        }
        let ghost f0 = files_view(files@);
        let ghost n0 = crate::text::views(natives@);
        if self.downloads.artifact.url.unicode_len() > 0 {
            files.push(self.downloads.artifact.to_file());
        }
        let ghost main = if self.downloads.artifact.url@.len() > 0 {
            seq![self.downloads.artifact.file()]
        } else {
            Seq::<FileView>::empty()
        };
        assert(files_view(files@) =~= f0 + main);
        if self.natives.len() == 0 {
            assert(crate::text::views(natives@) =~= n0 + Seq::<Seq<char>>::empty());
            return true;
        }
        let key = match find_key(&self.natives, p.name.as_str()) {
            Some(k) => k,
            None => return false,
        };
        let key = replace_all(key.as_str(), "${arch}", p.arch_bits.as_str());
        let a = match find_key(&self.downloads.classifiers, key.as_str()) {
            Some(a) => a,
            None => return false,
        };
        files.push(a.to_file());
        assert(files_view(files@) =~= f0 + main.push(a.file()));
        if !self.extract.default {
            natives.push(a.path.clone());
            assert(crate::text::views(natives@) =~= n0 + seq![a.path@]);
        } else {
            assert(crate::text::views(natives@) =~= n0 + Seq::<Seq<char>>::empty());
        }
        true
    }
}

/// The views of a list of files.
pub open spec fn files_view(s: Seq<File>) -> Seq<FileView> {
    s.map_values(|f: File| f@)
}

} // verus!
