use mc_launcher::arguments::{flatten, Argument, Arguments, Value};
use mc_launcher::descriptor::{AssetIndex, BaseDescriptor, Client, Downloads, OverlayDescriptor};
use mc_launcher::error::Error;
use mc_launcher::library::{Artifact, Downloads as LibraryDownloads, Extract, Library};
use mc_launcher::manifest::{Manifest, Version as Entry};
use mc_launcher::resolve::{merge_overlay, overlay_parent, resolve_base};
use mc_launcher::rule::{Platform, Rule};
use mc_launcher::version::{Assets, File, Object, Version};

fn linux() -> Platform {
    Platform { name: "linux".to_string(), arch: "x86".to_string(), arch_bits: "64".to_string() }
}

fn artifact(path: &str, url: &str, size: u32) -> Artifact {
    Artifact { path: path.to_string(), url: url.to_string(), size }
}

fn plain_library(path: &str, url: &str, size: u32) -> Library {
    Library {
        name: path.to_string(),
        downloads: LibraryDownloads { artifact: artifact(path, url, size), classifiers: Vec::new() },
        extract: Extract::default(),
        natives: Vec::new(),
        rules: Vec::new(),
    }
}

fn native_library(extract_default: bool) -> Library {
    Library {
        name: "org.lwjgl:lwjgl-platform".to_string(),
        downloads: LibraryDownloads {
            artifact: Artifact::default(),
            classifiers: vec![
                ("natives-linux-64".to_string(), artifact("lwjgl-linux.jar", "http://h/linux", 7)),
                ("natives-windows-64".to_string(), artifact("lwjgl-win.jar", "http://h/win", 8)),
            ],
        },
        extract: Extract { default: extract_default, exclude: Vec::new() },
        natives: vec![
            ("linux".to_string(), "natives-linux-${arch}".to_string()),
            ("windows".to_string(), "natives-windows-${arch}".to_string()),
        ],
        rules: Vec::new(),
    }
}

fn base(libraries: Vec<Library>, legacy: &str, arguments: Arguments) -> BaseDescriptor {
    BaseDescriptor {
        id: "1.12.2".to_string(),
        downloads: Downloads { client: Client { url: "http://h/client.jar".to_string(), size: 100 } },
        asset_index: AssetIndex { id: "1.12".to_string(), url: "http://h/1.12.json".to_string() },
        arguments,
        minecraft_arguments: legacy.to_string(),
        libraries,
        main_class: "net.minecraft.client.main.Main".to_string(),
    }
}

fn assets() -> Assets {
    Assets {
        id: String::new(),
        objects: vec![("icons/icon.png".to_string(), Object { hash: "bdf48ef6b5d0d23bbb02e17d04865216179f510a".to_string(), size: 3665 })],
    }
}

fn paths(v: &[File]) -> Vec<String> {
    v.iter().map(|f| f.path.clone()).collect()
}

#[test]
fn base_with_legacy_arguments() {
    let root = base(vec![plain_library("a/a.jar", "http://h/a", 1)], "--username ${auth_player_name} --version ${version_name}", Arguments::default());
    let v = resolve_base(&root, assets(), &linux()).unwrap();
    assert_eq!(v.id, "1.12.2");
    assert_eq!(v.assets.id, "1.12");
    assert_eq!(v.game_args, vec!["--username", "${auth_player_name}", "--version", "${version_name}"]);
    assert_eq!(
        v.jvm_args,
        vec![
            "-Djava.library.path=${natives_directory}",
            "-Dminecraft.launcher.brand=${launcher_name}",
            "-Dminecraft.launcher.version=${launcher_version}",
            "-cp",
            "${classpath}"
        ]
    );
    assert_eq!(paths(&v.libraries), vec!["client/1.12.2.jar", "a/a.jar"]);
    assert_eq!(v.libraries[0].url, "http://h/client.jar");
    assert_eq!(v.libraries[0].size, 100);
    assert!(v.natives.is_empty());
}

#[test]
fn base_with_structured_arguments() {
    let gated = Argument::WithRules {
        rules: vec![Rule { action: "allow".to_string(), os: Vec::new(), features: vec![("is_demo_user".to_string(), true)] }],
        value: Value::Single("--demo".to_string()),
    };
    let osx_only = Argument::WithRules {
        rules: vec![Rule { action: "allow".to_string(), os: vec![("name".to_string(), "osx".to_string())], features: Vec::new() }],
        value: Value::Multiple(vec!["-XstartOnFirstThread".to_string()]),
    };
    let args = Arguments {
        game: vec![
            Argument::Raw(Value::Single("--username".to_string())),
            Argument::Raw(Value::Multiple(vec!["--width".to_string(), "${resolution_width}".to_string()])),
            gated,
        ],
        jvm: vec![osx_only, Argument::Raw(Value::Single("-cp".to_string())), Argument::Raw(Value::Single("${classpath}".to_string()))],
    };
    let v = resolve_base(&base(Vec::new(), "", args), assets(), &linux()).unwrap();
    assert_eq!(v.game_args, vec!["--username", "--width", "${resolution_width}"]);
    assert_eq!(v.jvm_args, vec!["-cp", "${classpath}"]);
}

#[test]
fn flatten_keeps_order() {
    let args = vec![
        Argument::Raw(Value::Multiple(vec!["a".to_string(), "b".to_string()])),
        Argument::Raw(Value::Single("c".to_string())),
    ];
    assert_eq!(flatten(&args, &linux()), vec!["a", "b", "c"]);
}

#[test]
fn base_selects_native_classifier() {
    let v = resolve_base(&base(vec![native_library(false)], "x", Arguments::default()), assets(), &linux()).unwrap();
    assert_eq!(paths(&v.libraries), vec!["client/1.12.2.jar", "lwjgl-linux.jar"]);
    assert_eq!(v.libraries[1].url, "http://h/linux");
    assert_eq!(v.natives, vec!["lwjgl-linux.jar"]);
}

#[test]
fn extracted_native_is_not_recorded() {
    let v = resolve_base(&base(vec![native_library(true)], "x", Arguments::default()), assets(), &linux()).unwrap();
    assert_eq!(paths(&v.libraries), vec!["client/1.12.2.jar", "lwjgl-linux.jar"]);
    assert!(v.natives.is_empty());
}

#[test]
fn missing_classifier_is_a_parse_error() {
    let osx = Platform { name: "osx".to_string(), arch: "x86".to_string(), arch_bits: "64".to_string() };
    let r = resolve_base(&base(vec![native_library(false)], "x", Arguments::default()), assets(), &osx);
    assert_eq!(r.err(), Some(Error::Parse));
}

#[test]
fn library_denied_by_rule_is_skipped() {
    let mut l = plain_library("b/b.jar", "http://h/b", 2);
    l.rules = vec![Rule { action: "allow".to_string(), os: vec![("name".to_string(), "osx".to_string())], features: Vec::new() }];
    let v = resolve_base(&base(vec![l, plain_library("c/c.jar", "http://h/c", 3)], "x", Arguments::default()), assets(), &linux()).unwrap();
    assert_eq!(paths(&v.libraries), vec!["client/1.12.2.jar", "c/c.jar"]);
}

fn parent() -> Version {
    Version {
        id: "1.12.2".to_string(),
        assets: Assets { id: "1.12".to_string(), objects: Vec::new() },
        game_args: vec!["--old".to_string()],
        jvm_args: vec!["-cp".to_string(), "${classpath}".to_string()],
        libraries: vec![
            File { url: "http://h/a".to_string(), path: "A".to_string(), size: 1 },
            File { url: "http://h/b".to_string(), path: "B".to_string(), size: 2 },
        ],
        natives: vec!["B".to_string()],
        main_class: "net.minecraft.client.main.Main".to_string(),
    }
}

fn overlay(libraries: Vec<Library>, legacy: &str) -> OverlayDescriptor {
    OverlayDescriptor {
        id: "1.12.2-forge1.12.2-14.23.5.2860".to_string(),
        main_class: "net.minecraft.launchwrapper.Launch".to_string(),
        inherits_from: "1.12.2".to_string(),
        arguments: Arguments::default(),
        minecraft_arguments: legacy.to_string(),
        libraries,
    }
}

#[test]
fn overlay_libraries_follow_parent() {
    let o = overlay(vec![plain_library("C", "http://h/c", 3)], "--tweakClass x");
    let v = merge_overlay(&o, parent(), &linux());
    assert_eq!(paths(&v.libraries), vec!["A", "B", "C"]);
    assert_eq!(v.natives, vec!["B"]);
    assert_eq!(v.assets.id, "1.12");
    assert_eq!(v.id, "1.12.2-forge1.12.2-14.23.5.2860");
    assert_eq!(v.main_class, "net.minecraft.launchwrapper.Launch");
    assert_eq!(v.game_args, vec!["--tweakClass", "x"]);
    assert_eq!(v.jvm_args, vec!["-cp", "${classpath}"]);
}

#[test]
fn overlay_library_without_location_uses_universal() {
    let o = overlay(vec![plain_library("net/minecraftforge/forge.jar", "", 9)], "");
    let v = merge_overlay(&o, parent(), &linux());
    assert_eq!(
        v.libraries[2].url,
        "https://maven.minecraftforge.net/net/minecraftforge/forge/1.12.2-14.23.5.2860/forge-1.12.2-14.23.5.2860-universal.jar"
    );
    assert!(v.game_args.is_empty());
    assert!(v.jvm_args.is_empty());
}

#[test]
fn missing_parent_is_not_found() {
    let m = Manifest {
        tags: Vec::new(),
        versions: vec![Entry { id: "1.7.10".to_string(), url: "http://h/1.7.10.json".to_string(), tags: Vec::new() }],
    };
    assert_eq!(overlay_parent(&m, &overlay(Vec::new(), "")).err(), Some(Error::NotFound));
    let m2 = Manifest {
        tags: Vec::new(),
        versions: vec![Entry { id: "1.12.2".to_string(), url: "http://h/1.12.2.json".to_string(), tags: Vec::new() }],
    };
    assert_eq!(overlay_parent(&m2, &overlay(Vec::new(), "")).unwrap().url, "http://h/1.12.2.json");
}
