use rocket_include_static_resources::frozen;
use rocket_include_static_resources::reloadable;
use rocket_include_static_resources::EntityTag;
use rocket_include_static_resources::EtagIfNoneMatch;
use rocket_include_static_resources::FileResources;
use rocket_include_static_resources::ResourceError;
use rocket_include_static_resources::StaticResources;
use rocket_include_static_resources::StaticResponse;
use rocket_include_static_resources::{compute_data_etag, guess_mime};

fn no_client_tag() -> EtagIfNoneMatch {
    EtagIfNoneMatch { etags: Vec::new(), any: false }
}

fn client_tag(weak: bool, tag: &str) -> EtagIfNoneMatch {
    EtagIfNoneMatch { etags: vec![EntityTag { weak, tag: tag.to_owned() }], any: false }
}

#[test]
fn tag_is_deterministic() {
    let a1 = compute_data_etag(&[1, 2, 3]);
    let a2 = compute_data_etag(&[1, 2, 3]);
    assert_eq!(a1.tag, a2.tag);
    assert!(a1.weak && a2.weak);
}

#[test]
fn tags_of_distinct_buffers_differ() {
    let a = compute_data_etag(&[1, 2, 3]);
    let b = compute_data_etag(&[1, 2, 4]);
    let c = compute_data_etag(&[]);
    assert_ne!(a.tag, b.tag);
    assert_ne!(a.tag, c.tag);
    assert_ne!(b.tag, c.tag);
}

#[test]
fn tag_matches_the_upstream_hasher() {
    // The documented fingerprint of the bytes of "foo".
    let t = compute_data_etag(&[102, 111, 111]);
    assert_eq!(t.tag, "ea75LoNFQSGrbl9kB359ig");
    assert_ne!(t.tag, "foo");
}

#[test]
fn header_value_formatting() {
    let weak = EntityTag { weak: true, tag: "abc".to_owned() };
    let strong = EntityTag { weak: false, tag: "abc".to_owned() };
    assert_eq!(weak.to_header_value(), "W/\"abc\"");
    assert_eq!(strong.to_header_value(), "\"abc\"");
}

#[test]
fn mime_guessing() {
    assert_eq!(guess_mime("favicon.ico"), "image/x-icon");
    assert_eq!(guess_mime("images/favicon-16.png"), "image/png");
    assert_eq!(guess_mime("README.html"), "text/html");
    assert_eq!(guess_mime("no-extension"), "application/octet-stream");
    assert_eq!(guess_mime("strange.zzzzz"), "application/octet-stream");
}

#[test]
fn weak_equivalence_ignores_strength() {
    let resource_tag = EntityTag { weak: true, tag: "abc".to_owned() };
    assert!(client_tag(true, "abc").weak_eq(&resource_tag));
    assert!(client_tag(false, "abc").weak_eq(&resource_tag));
    assert!(!client_tag(true, "abd").weak_eq(&resource_tag));
    assert!(!no_client_tag().weak_eq(&resource_tag));
    let star = EtagIfNoneMatch { etags: Vec::new(), any: true };
    assert!(star.weak_eq(&resource_tag));
}

#[test]
fn frozen_build_not_modified_iff_tag_matches() {
    let mut resources = StaticResources::new();
    resources.register_resource_static(
        "page".to_owned(),
        "text/html".to_owned(),
        b"<html></html>".to_vec(),
    );
    let manager = frozen::StaticContextManager::new(resources);

    let full = manager.build(&no_client_tag(), "page");
    assert!(!full.is_not_modified());
    let inner = full.inner.as_ref().unwrap();
    assert_eq!(inner.mime, "text/html");
    assert_eq!(inner.data, b"<html></html>".to_vec());

    let opaque = compute_data_etag(b"<html></html>").tag;
    assert_eq!(inner.etag, format!("W/\"{}\"", opaque));

    // Matching opaque string: not modified, whatever the client flag says.
    assert!(manager.build(&client_tag(true, &opaque), "page").is_not_modified());
    assert!(manager.build(&client_tag(false, &opaque), "page").is_not_modified());
    // Differing opaque string: full payload again.
    assert!(!manager.build(&client_tag(true, "other"), "page").is_not_modified());
}

#[test]
fn frozen_not_found() {
    let resources = StaticResources::new();
    assert!(resources.get_resource("missing").is_none());
    let manager = frozen::StaticContextManager::new(resources);
    let r = manager.try_build(&no_client_tag(), "missing");
    assert_eq!(r.err(), Some(ResourceError::NotFound));
}

#[test]
fn reloadable_not_found() {
    let resources = FileResources::new();
    assert!(resources.get_resource("missing").is_err());
    let manager = reloadable::StaticContextManager::new(resources);
    let r = manager.try_build(&no_client_tag(), "missing");
    assert_eq!(r.err(), Some(ResourceError::NotFound));
}

#[test]
fn register_and_get_resource() {
    let mut resources = FileResources::new();
    resources.register_resource_file(
        "favicon".to_owned(),
        "assets/favicon.ico".to_owned(),
        vec![0xff, 0x00],
        Some(100),
    );
    let (mime, data, etag) = resources.get_resource("favicon").unwrap();
    assert_eq!(mime.as_str(), "image/x-icon");
    assert_eq!(data, &vec![0xff, 0x00]);
    assert_eq!(etag.tag, compute_data_etag(&[0xff, 0x00]).tag);
    assert!(etag.weak);
}

#[test]
fn duplicate_registration_overwrites() {
    let mut resources = FileResources::new();
    resources.register_resource_file(
        "a".to_owned(),
        "one.txt".to_owned(),
        b"one".to_vec(),
        Some(1),
    );
    resources.register_resource_file(
        "a".to_owned(),
        "two.html".to_owned(),
        b"two".to_vec(),
        Some(2),
    );
    let (mime, data, _) = resources.get_resource("a").unwrap();
    assert_eq!(mime.as_str(), "text/html");
    assert_eq!(data, &b"two".to_vec());
}

#[test]
fn unregister_returns_the_path() {
    let mut resources = FileResources::new();
    resources.register_resource_file(
        "a".to_owned(),
        "dir/a.txt".to_owned(),
        b"abc".to_vec(),
        None,
    );
    assert_eq!(resources.unregister_resource_file("a"), Some("dir/a.txt".to_owned()));
    assert_eq!(resources.unregister_resource_file("a"), None);
    assert!(resources.get_resource("a").is_err());
}

#[test]
fn staleness_rule() {
    let mut resources = FileResources::new();
    resources.register_resource_file(
        "a".to_owned(),
        "a.txt".to_owned(),
        b"old".to_vec(),
        Some(100),
    );
    // Unchanged or older modification time: the cached copy is fresh.
    assert!(!resources.reload_required("a", &Some(100)));
    assert!(!resources.reload_required("a", &Some(99)));
    // Strictly newer, or no longer determinable: stale.
    assert!(resources.reload_required("a", &Some(101)));
    assert!(resources.reload_required("a", &None));
}

#[test]
fn missing_timestamp_means_always_stale() {
    let mut resources = FileResources::new();
    resources.register_resource_file("a".to_owned(), "a.txt".to_owned(), b"old".to_vec(), None);
    assert!(resources.reload_required("a", &Some(0)));
    assert!(resources.reload_required("a", &Some(u64::MAX)));
    assert!(resources.reload_required("a", &None));
}

#[test]
fn staleness_detection_reload_and_no_reload() {
    // Two registries over the same (simulated) file.
    let mut reloaded = FileResources::new();
    let mut untouched = FileResources::new();
    for r in [&mut reloaded, &mut untouched] {
        r.register_resource_file("a".to_owned(), "a.txt".to_owned(), b"old".to_vec(), Some(10));
    }
    let old_tag = compute_data_etag(b"old").tag;

    // The file's bytes change on disk and its modification time advances.
    assert!(reloaded.reload_required("a", &Some(20)));
    reloaded.update_resource("a", b"new!".to_vec(), Some(20));

    let (_, data, etag) = reloaded.get_resource("a").unwrap();
    assert_eq!(data, &b"new!".to_vec());
    assert_eq!(etag.tag, compute_data_etag(b"new!").tag);
    assert_ne!(etag.tag, old_tag);

    // The no-reload path still serves the old content.
    let (_, data, etag) = untouched.get_resource("a").unwrap();
    assert_eq!(data, &b"old".to_vec());
    assert_eq!(etag.tag, old_tag);

    // After the reload the copy is fresh until the time advances again.
    assert!(!reloaded.reload_required("a", &Some(20)));
    assert!(reloaded.reload_required("a", &Some(21)));
}

#[test]
fn names_lists_registered_names() {
    let mut resources = FileResources::new();
    resources.register_resource_file("a".to_owned(), "a.txt".to_owned(), b"a".to_vec(), None);
    resources.register_resource_file("b".to_owned(), "b.txt".to_owned(), b"b".to_vec(), None);
    let mut names = resources.names();
    names.sort();
    assert_eq!(names, vec!["a".to_owned(), "b".to_owned()]);
    assert_eq!(resources.resource_file_path("a"), Some(&"a.txt".to_owned()));
    assert_eq!(resources.resource_file_path("c"), None);
}

#[test]
fn frozen_fairing_initializes_every_entry() {
    let fairing = frozen::StaticResponseFairing::new(vec![
        ("a".to_owned(), "text/plain".to_owned(), b"alpha".to_vec()),
        ("b".to_owned(), "image/png".to_owned(), b"beta".to_vec()),
        ("a".to_owned(), "text/html".to_owned(), b"gamma".to_vec()),
    ]);
    let resources = fairing.initialize();
    // The duplicate name: the last registration wins.
    let (mime, data, _) = resources.get_resource("a").unwrap();
    assert_eq!(mime.as_str(), "text/html");
    assert_eq!(data, &b"gamma".to_vec());
    let (mime, data, _) = resources.get_resource("b").unwrap();
    assert_eq!(mime.as_str(), "image/png");
    assert_eq!(data, &b"beta".to_vec());
}

#[test]
fn reloadable_fairing_holds_the_pairs() {
    let fairing = StaticResponse::fairing(vec![
        ("favicon".to_owned(), "assets/favicon.ico".to_owned()),
    ]);
    assert_eq!(fairing.pairs.len(), 1);
    assert_eq!(fairing.pairs[0].0, "favicon");
}

#[test]
fn not_found_message() {
    assert_eq!(
        ResourceError::NotFound.message(),
        "the requested resource name is not registered"
    );
}

#[test]
fn end_to_end_favicon_scenario() {
    let mut resources = FileResources::new();
    // register "favicon" -> "favicon.ico" with bytes FF 00.
    resources.register_resource_file(
        "favicon".to_owned(),
        "favicon.ico".to_owned(),
        vec![0xff, 0x00],
        Some(1_000),
    );
    let (mime, _, _) = resources.get_resource("favicon").unwrap();
    assert_eq!(mime.as_str(), "image/x-icon");
    let manager = reloadable::StaticContextManager::new(resources);

    // No client tag: the full payload, under some tag T1.
    let first = manager.build(&no_client_tag(), "favicon");
    let inner = first.inner.as_ref().unwrap();
    assert_eq!(inner.data, vec![0xff, 0x00]);
    assert_eq!(inner.mime, "image/x-icon");
    let t1 = compute_data_etag(&[0xff, 0x00]).tag;
    assert_eq!(inner.etag, format!("W/\"{}\"", t1));

    // Client sends T1 back: not modified.
    assert!(manager.build(&client_tag(true, &t1), "favicon").is_not_modified());

    // The file changes to AA 11 and its timestamp advances.
    let mut resources = manager.resources;
    assert!(resources.reload_required("favicon", &Some(2_000)));
    resources.update_resource("favicon", vec![0xaa, 0x11], Some(2_000));
    let manager = reloadable::StaticContextManager::new(resources);

    // The same client tag no longer matches: the full new payload, T2 != T1.
    let third = manager.build(&client_tag(true, &t1), "favicon");
    assert!(!third.is_not_modified());
    let inner = third.inner.as_ref().unwrap();
    assert_eq!(inner.data, vec![0xaa, 0x11]);
    let t2 = compute_data_etag(&[0xaa, 0x11]).tag;
    assert_eq!(inner.etag, format!("W/\"{}\"", t2));
    assert_ne!(t1, t2);
}

#[test]
fn build_responses_keep_their_bytes_after_overwrite() {
    let mut resources = FileResources::new();
    resources.register_resource_file(
        "a".to_owned(),
        "a.bin".to_owned(),
        b"before".to_vec(),
        Some(1),
    );
    let manager = reloadable::StaticContextManager::new(resources);
    let in_flight = manager.build(&no_client_tag(), "a");
    let mut resources = manager.resources;
    resources.update_resource("a", b"after".to_vec(), Some(2));
    // The response handed out earlier still observes the bytes it was given.
    assert_eq!(in_flight.inner.unwrap().data, b"before".to_vec());
    let (_, data, _) = resources.get_resource("a").unwrap();
    assert_eq!(data, &b"after".to_vec());
}
