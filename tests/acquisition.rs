use mc_launcher::acquire::{needs_fetch, Pool};
use mc_launcher::error::Error;
use mc_launcher::installer::installer_descriptor;
use mc_launcher::template::Vars;
use mc_launcher::rule::Platform;
use mc_launcher::version::{Assets, File, Object, Version};
use std::io::Write;

#[test]
fn file_of_expected_size_is_kept() {
    assert!(!needs_fetch(1024, Some(1024)));
}

#[test]
fn file_of_other_size_or_absent_is_fetched() {
    assert!(needs_fetch(1024, Some(1023)));
    assert!(needs_fetch(1024, None));
    assert!(needs_fetch(0, None));
}

#[test]
fn pool_never_exceeds_bound() {
    let bound = 3;
    let mut pool = Pool::new(10, bound);
    let mut running: Vec<usize> = Vec::new();
    let mut started = Vec::new();
    let mut most = 0;
    while !pool.is_done() {
        while let Some(i) = pool.start() {
            running.push(i);
            started.push(i);
        }
        most = most.max(running.len());
        assert!(pool.in_flight <= bound);
        running.remove(0);
        pool.finish(true);
    }
    assert_eq!(most, 3);
    assert_eq!(started, (0..10).collect::<Vec<_>>());
    assert!(pool.succeeded());
}

#[test]
fn pool_stops_after_failure() {
    let mut pool = Pool::new(5, 2);
    assert_eq!(pool.start(), Some(0));
    assert_eq!(pool.start(), Some(1));
    assert_eq!(pool.start(), None);
    pool.finish(false);
    assert_eq!(pool.start(), None);
    pool.finish(true);
    assert!(pool.is_done());
    assert!(!pool.succeeded());
}

#[test]
fn pool_without_limit() {
    let mut pool = Pool::new(4, 0);
    assert_eq!(pool.bound, 4);
    for i in 0..4 {
        assert_eq!(pool.start(), Some(i));
    }
    assert_eq!(pool.start(), None);
}

fn version() -> Version {
    Version {
        id: "1.12.2".to_string(),
        assets: Assets {
            id: "1.12".to_string(),
            objects: vec![("a.png".to_string(), Object { hash: "bdf48ef6".to_string(), size: 5 })],
        },
        game_args: vec!["--assetsDir".to_string(), "${assets_root}".to_string(), "--v".to_string(), "${version}".to_string()],
        jvm_args: vec!["-Djava.library.path=${natives_directory}".to_string(), "-cp".to_string(), "${classpath}".to_string()],
        libraries: vec![
            File { url: "http://h/a".to_string(), path: "a/a.jar".to_string(), size: 1 },
            File { url: "http://h/b".to_string(), path: "b/b.jar".to_string(), size: 2 },
        ],
        natives: vec!["b/b.jar".to_string()],
        main_class: "Main".to_string(),
    }
}

fn linux() -> Platform {
    Platform { name: "linux".to_string(), arch: "x86".to_string(), arch_bits: "64".to_string() }
}

#[test]
fn classpath_joins_store_paths() {
    assert_eq!(version().classpath("/s", &linux()), "/s/libraries/a/a.jar:/s/libraries/b/b.jar");
    let w = Platform { name: "windows".to_string(), arch: "x86".to_string(), arch_bits: "64".to_string() };
    assert_eq!(version().classpath("C:/s", &w), "C:/s/libraries/a/a.jar;C:/s/libraries/b/b.jar");
}

#[test]
fn launch_arguments_in_order() {
    let mut caller = Vars::new();
    caller.insert("version", "1.12.2");
    caller.insert("assets_root", "/elsewhere");
    let extra = vec!["-Xmx2G".to_string()];
    let args = version().launch_args("/s", &extra, &caller, &linux());
    assert_eq!(
        args,
        vec![
            "-Djava.library.path=/s/natives",
            "-cp",
            "/s/libraries/a/a.jar:/s/libraries/b/b.jar",
            "Main",
            "-Xmx2G",
            "--assetsDir",
            "/elsewhere",
            "--v",
            "1.12.2"
        ]
    );
}

#[test]
fn download_targets() {
    let v = version();
    let libs = v.library_downloads();
    assert_eq!(libs[0].path, "libraries/a/a.jar");
    assert_eq!(libs[1].url, "http://h/b");
    let a = v.asset_downloads().unwrap();
    assert_eq!(a[0].path, "assets/objects/bd/bdf48ef6");
    assert_eq!(a[0].url, "http://resources.download.minecraft.net/bd/bdf48ef6");
    assert_eq!(a[0].size, 5);
    assert_eq!(v.native_archives(), vec!["libraries/b/b.jar"]);
    assert_eq!(v.index_path(), "assets/indexes/1.12.json");
}

#[test]
fn short_asset_hash_is_rejected() {
    let mut v = version();
    v.assets.objects.push(("b".to_string(), Object { hash: "x".to_string(), size: 1 }));
    assert_eq!(v.asset_downloads().err(), Some(Error::Parse));
}

fn archive(members: &[(&str, &[u8])]) -> Vec<u8> {
    let mut w = zip::ZipWriter::new(std::io::Cursor::new(Vec::new()));
    for (name, data) in members {
        let options = zip::write::SimpleFileOptions::default().compression_method(zip::CompressionMethod::Stored);
        w.start_file(*name, options).unwrap();
        w.write_all(data).unwrap();
    }
    w.finish().unwrap().into_inner()
}

#[test]
fn installer_descriptor_is_read() {
    let bytes = archive(&[("install_profile.json", b"{}"), ("version.json", b"{\"id\":\"x\"}")]);
    assert_eq!(installer_descriptor(&bytes).unwrap(), b"{\"id\":\"x\"}".to_vec());
}

#[test]
fn installer_without_descriptor_fails() {
    let bytes = archive(&[("install_profile.json", b"{}")]);
    assert_eq!(installer_descriptor(&bytes).err(), Some(Error::Parse));
    assert_eq!(installer_descriptor(&b"not a zip".to_vec()).err(), Some(Error::Parse));
}
