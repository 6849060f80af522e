use scope::package::{AppType, PackageSource};
use scope::parse::{
    apt_app_type, parse_dpkg_listing, parse_flatpak_listing, parse_listing, parse_number,
    parse_snap_summary, snap_app_type, Listing,
};

fn pairs(v: &[(&str, &str)]) -> Vec<(String, String)> {
    v.iter().map(|(a, b)| (a.to_string(), b.to_string())).collect()
}

#[test]
fn numbers_are_read_like_u64_from_str() {
    assert_eq!(parse_number("1234"), Some(1234));
    assert_eq!(parse_number("+7"), Some(7));
    assert_eq!(parse_number("18446744073709551615"), Some(u64::MAX));
    assert_eq!(parse_number("18446744073709551616"), None);
    assert_eq!(parse_number(""), None);
    assert_eq!(parse_number("+"), None);
    assert_eq!(parse_number("12a"), None);
    assert_eq!(parse_number("-1"), None);
}

#[test]
fn apt_upgradable_listing() {
    let text = "Listing... Done\nvim/noble-updates 2:9.1.0016-1ubuntu7.2 amd64 [upgradable from: 2:9.1.0016-1ubuntu7]\ncurl/noble 8.5.0 amd64\nbroken\n";
    assert_eq!(
        parse_listing(text, Listing::AptUpgradable),
        pairs(&[("vim", "2:9.1.0016-1ubuntu7.2"), ("curl", "8.5.0")])
    );
}

#[test]
fn snap_and_flatpak_update_listings() {
    let snap = "Name     Version  Rev\nfirefox  125.0    4090  latest/stable\r\nx\n";
    assert_eq!(parse_listing(snap, Listing::SnapRefresh), pairs(&[("firefox", "125.0")]));
    let flatpak = "GIMP\t2.10.38\nno tab here\nInkscape\t1.3\textra";
    assert_eq!(
        parse_listing(flatpak, Listing::FlatpakUpdates),
        pairs(&[("GIMP", "2.10.38"), ("Inkscape", "1.3")])
    );
    assert!(parse_listing("", Listing::FlatpakUpdates).is_empty());
}

#[test]
fn snap_list_leaves_out_system_snaps() {
    let text = "Name  Version  Rev  Tracking  Publisher  Notes\ncore22  20240111  1122  latest/stable  canonical  base\nsnapd  2.61  21184  latest/stable  canonical  snapd\nsnapdragon  1.0  3  latest/stable  me  -\nbare  1.0  5  latest/stable  canonical  base\nvlc  3.0.20  3777  latest/stable  videolan  -\nshort  1.0\n";
    assert_eq!(
        parse_listing(text, Listing::SnapInstalled),
        pairs(&[("snapdragon", "1.0"), ("vlc", "3.0.20")])
    );
}

#[test]
fn dpkg_listing_keeps_manual_packages() {
    let text = "htop\t3.3.0-4\t400\tinteractive processes viewer\nlibc6\t2.39\t13000\tGNU C Library\nvim\t9.1\tbad\tVi IMproved\tmore text\nshort\tline\n";
    let all = parse_dpkg_listing(text, "");
    assert_eq!(all.len(), 3);
    assert_eq!(all[0].name, "htop");
    assert_eq!(all[0].version, "3.3.0-4");
    assert_eq!(all[0].size_bytes, 400 * 1024);
    assert_eq!(all[0].description, "interactive processes viewer");
    assert_eq!(all[0].source, PackageSource::Apt);
    assert_eq!(all[2].size_bytes, 0);
    assert_eq!(all[2].description, "Vi IMproved more text");
    let manual = parse_dpkg_listing(text, "htop\nvim\n");
    let names: Vec<String> = manual.iter().map(|p| p.name.clone()).collect();
    assert_eq!(names, vec!["htop", "vim"]);
    let huge = parse_dpkg_listing("big\t1\t18446744073709551615\tx\n", "");
    assert_eq!(huge[0].size_bytes, u64::MAX);
}

#[test]
fn flatpak_listing_records() {
    let text = "GIMP\torg.gimp.GIMP\t2.10.38\t1.2 GB\tImage editor\nFoo\tcom.foo.Foo\t1.0\t3 MB\nbad\tline\n";
    let got = parse_flatpak_listing(text);
    assert_eq!(got.len(), 2);
    assert_eq!(got[0].0.name, "GIMP");
    assert_eq!(got[0].0.install_path.as_deref(), Some("org.gimp.GIMP"));
    assert_eq!(got[0].0.version, "2.10.38");
    assert_eq!(got[0].1, "1.2 GB");
    assert_eq!(got[0].0.description, "Image editor");
    assert_eq!(got[0].0.app_type, AppType::GUI);
    assert_eq!(got[1].0.description, "");
    assert_eq!(got[1].0.source, PackageSource::Flatpak);
}

#[test]
fn snap_summary_is_found_and_trimmed() {
    let info = "name: vlc\nsummary:   The ultimate media player  \npublisher: VideoLAN\nsummary: second\n";
    assert_eq!(parse_snap_summary(info).as_deref(), Some("The ultimate media player"));
    assert_eq!(parse_snap_summary("name: x\n"), None);
    assert_eq!(parse_snap_summary("summary:summary: twice").as_deref(), Some("twice"));
}

#[test]
fn application_types() {
    assert_eq!(apt_app_type("htop", true, ""), AppType::GUI);
    assert_eq!(apt_app_type("gedit", false, "libc6, LIBGTK-3-0 (>= 3.0)"), AppType::GUI);
    assert_eq!(apt_app_type("libssl3", false, "libc6"), AppType::CLI);
    assert_eq!(apt_app_type("python3-dev", false, "libc6"), AppType::CLI);
    assert_eq!(apt_app_type("htop", false, "libc6, libncursesw6"), AppType::Unknown);
    assert_eq!(snap_app_type("spotify", false), AppType::GUI);
    assert_eq!(snap_app_type("lxd", true), AppType::GUI);
    assert_eq!(snap_app_type("lxd", false), AppType::Unknown);
}

#[test]
fn unicode_white_space_separates_words() {
    let text = "Name Version\nfirefox\u{a0}125.0\u{3000}x\n";
    assert_eq!(parse_listing(text, Listing::SnapRefresh), pairs(&[("firefox", "125.0")]));
    assert_eq!(parse_snap_summary("summary:\u{2003}wide\u{a0}").as_deref(), Some("wide"));
}
