use ioscpy::device::{device_listing, parse_udids, select_device, Device, SelectError};

fn dev(udid: &str, name: &str) -> Device {
    Device {
        udid: udid.to_string(),
        name: name.to_string(),
        product_type: "iPhone11,2".to_string(),
        ios_version: "15.5".to_string(),
    }
}

#[test]
fn summary_line() {
    let d = dev("abc123", "Lautaro's iPhone");
    assert_eq!(d.summary(), "abc123  iPhone11,2  (iOS 15.5)  \"Lautaro's iPhone\"");
}

#[test]
fn parse_udids_dedupes_and_sorts() {
    let raw = "00008030-BBB (Network)\n00008030-AAA\n00008030-BBB\n\n   \n";
    assert_eq!(parse_udids(raw), vec!["00008030-AAA".to_string(), "00008030-BBB".to_string()]);
}

#[test]
fn parse_udids_takes_the_first_word() {
    assert_eq!(parse_udids("  zz yy\r\naa\tbb"), vec!["aa".to_string(), "zz".to_string()]);
    assert!(parse_udids("").is_empty());
    assert!(parse_udids("\n\n").is_empty());
}

#[test]
fn select_requested_udid() {
    let ds = vec![dev("a", "one"), dev("b", "two")];
    let d = select_device(ds, Some("b")).unwrap();
    assert_eq!(d.name, "two");
}

#[test]
fn select_requested_udid_missing() {
    let ds = vec![dev("a", "one")];
    let e = select_device(ds, Some("zz")).unwrap_err();
    assert!(matches!(&e, SelectError::NotFound(w) if w == "zz"));
    assert_eq!(e.message(), "no iPhone with UDID zz is plugged in");
}

#[test]
fn select_only_device() {
    let d = select_device(vec![dev("a", "one")], None).unwrap();
    assert_eq!(d.udid, "a");
}

#[test]
fn select_without_devices() {
    let e = select_device(Vec::new(), None).unwrap_err();
    assert!(matches!(e, SelectError::NoDevice));
    assert_eq!(
        e.message(),
        "no iPhone found over USB. Plug in your jailbroken iPhone, unlock it, and tap Trust if it asks."
    );
}

#[test]
fn select_among_several_lists_them() {
    let ds = vec![dev("a", "one"), dev("b", "two")];
    let listing = device_listing(&ds);
    assert_eq!(
        listing,
        "  a  iPhone11,2  (iOS 15.5)  \"one\"\n  b  iPhone11,2  (iOS 15.5)  \"two\""
    );
    let e = select_device(ds, None).unwrap_err();
    assert_eq!(
        e.message(),
        format!("more than one iPhone is plugged in. Pick the one you want with --device <UDID>:\n{listing}")
    );
}

#[test]
fn select_first_of_duplicates() {
    let ds = vec![dev("a", "first"), dev("a", "second")];
    assert_eq!(select_device(ds, Some("a")).unwrap().name, "first");
}
