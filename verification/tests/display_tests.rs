use std::collections::HashMap;

use etheria_downloader::helper::{display_name, file_name, FileHelper};
use etheria_downloader::manifest::{Asset, Command, FileInner, Pair, VersionFiles};
use etheria_downloader::progress::{Indicator, ProgressAggregator};

fn sample_entry() -> FileInner {
    FileInner {
        hash: "900150983cd24fb0d6963f7d28e17f72".to_string(),
        path: "client/content/paks/pakchunk0-WindowsNoEditor.pak".to_string(),
        size: 3,
        url: "https://example.invalid/pakchunk0-WindowsNoEditor.pak".to_string(),
        is_downloaded: 0,
        downloaded_size: 0,
    }
}

#[test]
fn file_name_takes_the_suffix_after_the_last_slash() {
    assert_eq!(file_name("client/content/file.pak"), "file.pak");
    assert_eq!(file_name("file.pak"), "file.pak");
    assert_eq!(file_name("a/b/c/"), "");
    assert_eq!(file_name(""), "");
}

#[test]
fn short_names_are_displayed_whole() {
    assert_eq!(display_name("file.pak"), "file.pak");
    let name39 = "a".repeat(39);
    assert_eq!(display_name(&name39), name39);
}

#[test]
fn long_names_are_cut_with_an_ellipsis() {
    let name40 = "b".repeat(40);
    let expected = format!("{}...", "b".repeat(36));
    assert_eq!(display_name(&name40), expected);
    let name80 = "c".repeat(80);
    assert_eq!(display_name(&name80), format!("{}...", "c".repeat(36)));
}

#[test]
fn helper_exposes_its_entry() {
    let helper = FileHelper::new(sample_entry());
    assert_eq!(helper.md5(), "900150983cd24fb0d6963f7d28e17f72");
    assert_eq!(helper.size(), 3);
    assert_eq!(
        helper.download_src(),
        "https://example.invalid/pakchunk0-WindowsNoEditor.pak"
    );
    assert_eq!(
        helper.download_dest(),
        "client/content/paks/pakchunk0-WindowsNoEditor.pak"
    );
    assert_eq!(helper.pb(), None);
}

#[test]
fn helper_attaches_one_indicator_per_entry() {
    let mut mp = ProgressAggregator::new();
    let first = FileHelper::new(sample_entry())
        .with_progress_bar()
        .with_multi_progress(&mut mp);
    let second = FileHelper::new(sample_entry())
        .with_progress_bar()
        .with_multi_progress(&mut mp);
    assert_eq!(first.pb(), Some(0));
    assert_eq!(second.pb(), Some(1));
    assert_eq!(mp.len(), 2);
    assert_eq!(
        mp.bar_at(0),
        Indicator {
            length: 3,
            position: 0,
            finished: false
        }
    );
}

#[test]
fn helper_without_bar_attaches_nothing() {
    let mut mp = ProgressAggregator::new();
    let helper = FileHelper::new(sample_entry()).with_multi_progress(&mut mp);
    assert_eq!(helper.pb(), None);
    assert_eq!(mp.len(), 0);
}

#[test]
fn updates_leave_other_indicators_untouched() {
    let mut mp = ProgressAggregator::new();
    let a = mp.attach(Indicator::new(100));
    let b = mp.attach(Indicator::new(200));
    mp.inc(a, 40);
    assert_eq!(mp.bar_at(a).position, 40);
    assert_eq!(mp.bar_at(b).position, 0);
    mp.set_position(b, 200);
    mp.finish(b);
    assert_eq!(mp.bar_at(b).finished, true);
    assert_eq!(mp.bar_at(b).position, 200);
    assert_eq!(mp.bar_at(a).finished, false);
    mp.reset(a);
    assert_eq!(mp.bar_at(a).position, 0);
    assert_eq!(mp.bar_at(b).position, 200);
}

#[test]
fn byte_counts_saturate_instead_of_wrapping() {
    let mut mp = ProgressAggregator::new();
    let h = mp.attach(Indicator::new(u64::MAX));
    mp.inc(h, u64::MAX - 1);
    mp.inc(h, 5);
    assert_eq!(mp.bar_at(h).position, u64::MAX);
}

#[test]
fn manifest_holds_its_entries() {
    let mut files = HashMap::new();
    files.insert("pak0".to_string(), sample_entry());
    let manifest = VersionFiles {
        version: "1.0.0".to_string(),
        display_version: "1.0".to_string(),
        command: Command {
            exe: "client.exe".to_string(),
            params: "".to_string(),
        },
        asset: Asset {
            current: "main".to_string(),
            assets: vec![Pair {
                name: "main".to_string(),
                value: "main.pak".to_string(),
            }],
        },
        files,
    };
    assert_eq!(manifest.files.len(), 1);
    assert_eq!(manifest.files["pak0"].size, 3);
    assert_eq!(manifest.command.exe, "client.exe");
    assert_eq!(manifest.asset.assets[0].name, "main");
    assert_eq!(manifest.version, "1.0.0");
    assert_eq!(manifest.display_version, "1.0");
}
