use lxc_builder::alpine::{
    parse_release_info, tarball_url, verify_checksum, verify_tarball_size, version_file_url,
    BaseSystemDownloader, DownloadAction, DownloadEvent, Error, ReleaseEntry,
};
use lxc_builder::arch::Arch;
use lxc_builder::digest::{sha512_hex_of, Sha512Stream};

fn entry(flavor: &str, file: &str, size: u64, sha512: &str) -> ReleaseEntry {
    ReleaseEntry {
        flavor: flavor.to_string(),
        file: file.to_string(),
        size,
        sha512: sha512.to_string(),
    }
}

#[test]
fn selection_ignores_order() {
    let wanted = entry("alpine-minirootfs", "x.tar.xz", 10, "aa");
    let other = entry("other", "y.tar.xz", 5, "bb");
    let first = parse_release_info(&vec![wanted.copy(), other.copy()]).ok().unwrap();
    assert_eq!(first.file, "x.tar.xz");
    let second = parse_release_info(&vec![other.copy(), wanted.copy()]).ok().unwrap();
    assert_eq!(second.file, "x.tar.xz");
    assert_eq!(second.size, 10);
    assert_eq!(second.sha512, "aa");
}

#[test]
fn selection_takes_the_first_match() {
    let a = entry("alpine-minirootfs", "a.tar.xz", 1, "aa");
    let b = entry("alpine-minirootfs", "b.tar.xz", 2, "bb");
    let r = parse_release_info(&vec![a, b]).ok().unwrap();
    assert_eq!(r.file, "a.tar.xz");
}

#[test]
fn selection_without_flavor_fails() {
    let v = vec![entry("alpine-standard", "s.iso", 1, "a"), entry("alpine-virt", "v.iso", 2, "b")];
    assert!(matches!(parse_release_info(&v), Err(Error::VariantNotFound)));
    assert!(matches!(parse_release_info(&vec![]), Err(Error::VariantNotFound)));
}

#[test]
fn size_check() {
    assert!(verify_tarball_size(10, 10).is_ok());
    match verify_tarball_size(9, 10) {
        Err(Error::SizeMismatch { expected_size, actual_size }) => {
            assert_eq!(expected_size, 10);
            assert_eq!(actual_size, 9);
        }
        _ => panic!("expected a size mismatch"),
    }
}

#[test]
fn checksum_check() {
    assert!(verify_checksum("abc", "abc").is_ok());
    match verify_checksum("abd", "abc") {
        Err(Error::ChecksumMismatch { expected_digest, actual_digest }) => {
            assert_eq!(expected_digest, "abc");
            assert_eq!(actual_digest, "abd");
        }
        _ => panic!("expected a checksum mismatch"),
    }
    assert!(verify_checksum("ABC", "abc").is_err());
}

#[test]
fn urls() {
    assert_eq!(
        version_file_url(&Arch::AMD64),
        "https://dl-cdn.alpinelinux.org/alpine/latest-stable/releases/x86_64/latest-releases.yaml"
    );
    assert_eq!(
        tarball_url(&Arch::AARCH64, "x.tar.xz"),
        "https://dl-cdn.alpinelinux.org/alpine/latest-stable/releases/aarch64/x.tar.xz"
    );
}

#[test]
fn error_new_keeps_message() {
    match Error::new("boom") {
        Error::Message(m) => assert_eq!(m, "boom"),
        _ => panic!("expected a message"),
    }
}

fn start(d: &mut BaseSystemDownloader, entries: Vec<ReleaseEntry>) -> DownloadAction {
    assert!(matches!(d.download(DownloadEvent::Start), DownloadAction::FetchManifest(_)));
    d.download(DownloadEvent::Manifest(Ok(entries)))
}

#[test]
fn short_download_fails_before_hashing() {
    let mut d = BaseSystemDownloader::new(Arch::X86);
    start(&mut d, vec![entry("alpine-minirootfs", "x.tar.xz", 10, "aa")]);
    match d.download(DownloadEvent::Archive(Ok(9))) {
        DownloadAction::Failed(Error::SizeMismatch { expected_size, actual_size }) => {
            assert_eq!((expected_size, actual_size), (10, 9));
        }
        _ => panic!("expected a size mismatch"),
    }
    assert!(matches!(
        d.download(DownloadEvent::Digest(Ok("aa".to_string()))),
        DownloadAction::Failed(Error::UnexpectedEvent)
    ));
}

#[test]
fn altered_download_fails_checksum() {
    let good: Vec<u8> = (0u8..10).collect();
    let mut bad = good.clone();
    bad[3] ^= 1;
    let digest = sha512_hex_of(&good);
    let mut d = BaseSystemDownloader::new(Arch::X86);
    start(&mut d, vec![entry("alpine-minirootfs", "x.tar.xz", 10, &digest)]);
    assert!(matches!(d.download(DownloadEvent::Archive(Ok(10))), DownloadAction::HashArchive));
    match d.download(DownloadEvent::Digest(Ok(sha512_hex_of(&bad)))) {
        DownloadAction::Failed(Error::ChecksumMismatch { expected_digest, actual_digest }) => {
            assert_eq!(expected_digest, digest);
            assert_eq!(actual_digest, sha512_hex_of(&bad));
        }
        _ => panic!("expected a checksum mismatch"),
    }
}

#[test]
fn missing_flavor_fails_download() {
    let mut d = BaseSystemDownloader::new(Arch::AMD64);
    let r = start(&mut d, vec![entry("other", "y.tar.xz", 5, "bb")]);
    assert!(matches!(r, DownloadAction::Failed(Error::VariantNotFound)));
}

#[test]
fn transport_errors_pass_through() {
    let mut d = BaseSystemDownloader::new(Arch::AMD64);
    d.download(DownloadEvent::Start);
    match d.download(DownloadEvent::Manifest(Err(Error::Transport("offline".to_string())))) {
        DownloadAction::Failed(Error::Transport(m)) => assert_eq!(m, "offline"),
        _ => panic!("expected the transport error"),
    }
}

#[test]
fn events_out_of_order_fail() {
    let mut d = BaseSystemDownloader::new(Arch::AMD64);
    assert!(matches!(
        d.download(DownloadEvent::Archive(Ok(1))),
        DownloadAction::Failed(Error::UnexpectedEvent)
    ));
}

fn entries_from_yaml(body: &str) -> Vec<ReleaseEntry> {
    let doc: serde_yaml::Value = serde_yaml::from_str(body).unwrap();
    doc.as_sequence()
        .unwrap()
        .iter()
        .map(|r| {
            entry(
                r.get("flavor").unwrap().as_str().unwrap(),
                r.get("file").unwrap().as_str().unwrap(),
                r.get("size").unwrap().as_u64().unwrap(),
                r.get("sha512").unwrap().as_str().unwrap(),
            )
        })
        .collect()
}

#[test]
fn end_to_end_download() {
    let known: &[u8] = b"0123456789";
    let mut stream = Sha512Stream::new();
    stream.update(&known[..4]);
    stream.update(&known[4..]);
    let served_digest = stream.finish();
    assert_eq!(served_digest, sha512_hex_of(known));
    let body = format!(
        "- flavor: alpine-minirootfs\n  file: x.tar.xz\n  size: 10\n  sha512: {}\n- flavor: other\n  file: y.tar.xz\n  size: 5\n  sha512: abc\n",
        served_digest
    );
    let mut d = BaseSystemDownloader::new(Arch::AMD64);
    match d.download(DownloadEvent::Start) {
        DownloadAction::FetchManifest(u) => assert_eq!(
            u,
            "https://dl-cdn.alpinelinux.org/alpine/latest-stable/releases/x86_64/latest-releases.yaml"
        ),
        _ => panic!("expected the manifest to be fetched"),
    }
    match d.download(DownloadEvent::Manifest(Ok(entries_from_yaml(&body)))) {
        DownloadAction::FetchArchive(u) => assert_eq!(
            u,
            "https://dl-cdn.alpinelinux.org/alpine/latest-stable/releases/x86_64/x.tar.xz"
        ),
        _ => panic!("expected the archive to be fetched"),
    }
    assert!(matches!(
        d.download(DownloadEvent::Archive(Ok(known.len() as u64))),
        DownloadAction::HashArchive
    ));
    match d.download(DownloadEvent::Digest(Ok(sha512_hex_of(known)))) {
        DownloadAction::Finished(e) => {
            assert_eq!(e.flavor, "alpine-minirootfs");
            assert_eq!(e.file, "x.tar.xz");
            assert_eq!(e.size, 10);
        }
        _ => panic!("expected the download to be verified"),
    }
}
