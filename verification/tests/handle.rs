use pds_migration::handle::is_handle;

#[test]
fn accepts_the_documented_handles_as_handles() {
    for text in [
        "jay.bsky.social",
        "8.cn",
        "name.t--t",
        "XX.LCS.MIT.EDU",
        "a.co",
        "xn--notarealidn.com",
        "xn--fiqa61au8b7zsevnm8ak20mc4a87e.xn--fiqs8s",
        "xn--ls8h.test",
        "example.t",
        "2gzyxa5ihm7nsggfxnu52rck2vv4rvmdlkiu3zzui5du4xyclen53wid.onion",
        "laptop.local",
        "blah.arpa",
    ] {
        assert!(is_handle(text), "{text}");
    }
}

#[test]
fn refuses_what_is_no_handle_at_all() {
    for text in [
        "jo@hn.test",
        "john..test",
        "xn--bcher-.tld",
        "john.0",
        "cn.8",
        "org",
        "name.org.",
        ".name.org",
        "-name.org",
        "name.-org",
        "name.org-",
        "a.b\n",
        "",
        ".",
    ] {
        assert!(!is_handle(text), "{text:?}");
    }
}

#[test]
fn holds_a_label_to_63_characters_and_a_handle_to_253() {
    assert!(is_handle(&format!("{}.example", "a".repeat(63))));
    assert!(!is_handle(&format!("{}.example", "a".repeat(64))));
    assert!(is_handle(&format!("example.{}", "a".repeat(63))));
    assert!(!is_handle(&format!("example.{}", "a".repeat(64))));
    let label = "a".repeat(61);
    assert!(is_handle(&format!("{label}.{label}.{label}.{label}.abcde")));
    assert!(!is_handle(&format!("{label}.{label}.{label}.{label}.abcdef")));
}
