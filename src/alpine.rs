//! Selection, download and verification of the Alpine minimal root
//! filesystem tarball.
//!
//! The network and the disk are driven by the caller: `BaseSystemDownloader`
//! says what to fetch next and decides, from what the caller reports back,
//! whether the tarball may be trusted.
use crate::arch::{get_architecture, release_dir, Arch};
use vstd::prelude::*;
use vstd::string::StringExecFns;

verus! {

/// The release flavor that names the minimal root filesystem.
pub open spec fn required_flavor() -> Seq<char> {
    "alpine-minirootfs"@
}

/// Where the release manifests and tarballs of every architecture live.
pub open spec fn release_base() -> Seq<char> {
    "https://dl-cdn.alpinelinux.org/alpine/latest-stable/releases/"@
}

/// The URL of the release manifest of an architecture.
pub open spec fn manifest_url(a: Arch) -> Seq<char> {
    release_base() + release_dir(a) + "/latest-releases.yaml"@
}

/// The URL of a release file of an architecture.
pub open spec fn archive_url(a: Arch, file: Seq<char>) -> Seq<char> {
    release_base() + release_dir(a) + "/"@ + file
}

/// One record of a release manifest.
pub struct ReleaseEntry {
    pub flavor: String,
    pub file: String,
    pub size: u64,
    pub sha512: String,
}

/// A release record as plain values.
pub ghost struct ReleaseEntryView {
    pub flavor: Seq<char>,
    pub file: Seq<char>,
    pub size: u64,
    pub sha512: Seq<char>,
}

impl View for ReleaseEntry {
    type V = ReleaseEntryView;

    open spec fn view(&self) -> ReleaseEntryView {
        ReleaseEntryView {
            flavor: self.flavor@,
            file: self.file@,
            size: self.size,
            sha512: self.sha512@,
        }
    }
}

impl ReleaseEntry {
    /// A copy of the record.
    pub fn copy(&self) -> (r: ReleaseEntry)
        ensures
            r@ == self@,
    {
        ReleaseEntry {
            flavor: self.flavor.clone(),
            file: self.file.clone(),
            size: self.size,
            sha512: self.sha512.clone(),
        }
    }
}

/// The records of a manifest as plain values.
pub open spec fn entry_views(v: Seq<ReleaseEntry>) -> Seq<ReleaseEntryView> {
    v.map_values(|e: ReleaseEntry| e@)
}

/// The first record, in document order, of the required flavor.
pub open spec fn selected(s: Seq<ReleaseEntryView>) -> Option<ReleaseEntryView>
    decreases s.len(),
{
    if s.len() == 0 {
        None
    } else if s[0].flavor == required_flavor() {
        Some(s[0])
    } else {
        selected(s.drop_first())
    }
}

/// Why the base system could not be obtained.
pub enum Error {
    /// A failure described by its message alone.
    Message(String),
    /// The HTTP transport failed.
    Transport(String),
    /// The manifest is not a well-formed list of release records.
    ManifestParse(String),
    /// The manifest lists no release of the required flavor.
    VariantNotFound,
    /// The number of bytes written differs from the declared size.
    SizeMismatch { expected_size: u64, actual_size: u64 },
    /// The digest of the written file differs from the declared one.
    ChecksumMismatch { expected_digest: String, actual_digest: String },
    /// A file could not be created, written or read.
    Filesystem(String),
    /// The caller reported an event that the current stage does not await.
    UnexpectedEvent,
}

impl Error {
    /// An error described by a message.
    pub fn new(error: &str) -> (r: Error)
        ensures
            r matches Error::Message(m) && m@ == error@,
    {
        Error::Message(String::from_str(error))
    }
}

/// The first record of the required flavor, or `VariantNotFound`.
pub fn parse_release_info(entries: &Vec<ReleaseEntry>) -> (r: Result<ReleaseEntry, Error>)
    ensures
        r is Ok <==> selected(entry_views(entries@)) is Some,
        r matches Ok(e) ==> Some(e@) == selected(entry_views(entries@)),
        r matches Err(e) ==> e is VariantNotFound,
{
    let wanted = String::from_str("alpine-minirootfs");
    let n = entries.len();
    let mut i: usize = 0;
    assert(entry_views(entries@).subrange(0, n as int) =~= entry_views(entries@));
    while i < n
        invariant
            n == entries@.len(),
            i <= n,
            wanted@ == required_flavor(),
            selected(entry_views(entries@)) == selected(entry_views(entries@).subrange(i as int, n as int)),
        decreases n - i,
    {
        let ghost rest = entry_views(entries@).subrange(i as int, n as int);
        assert(rest.drop_first() =~= entry_views(entries@).subrange(i + 1, n as int));
        if entries[i].flavor == wanted {
            return Ok(entries[i].copy());
        }
        i = i + 1;
    }
    assert(entry_views(entries@).subrange(i as int, n as int).len() == 0);
    Err(Error::VariantNotFound)
}

/// Accepts a download only when its byte count is the declared size.
pub fn verify_tarball_size(download_size: u64, expected_size: u64) -> (r: Result<(), Error>)
    ensures
        r is Ok <==> download_size == expected_size,
        r matches Err(e) ==> e == (Error::SizeMismatch { expected_size: expected_size, actual_size: download_size }),
{
    if download_size == expected_size {
        return Ok(());
    }
    Err(Error::SizeMismatch { expected_size: expected_size, actual_size: download_size })
}

/// Accepts a download only when its digest is exactly the declared one.
pub fn verify_checksum(actual: &str, expected: &str) -> (r: Result<(), Error>)
    ensures
        r is Ok <==> actual@ == expected@,
        r matches Err(Error::ChecksumMismatch { expected_digest: e, actual_digest: a }) ==> e@ == expected@
            && a@ == actual@,
        r is Err ==> r->Err_0 is ChecksumMismatch,
{
    let a = String::from_str(actual);
    let e = String::from_str(expected);
    if a == e {
        return Ok(());
    }
    Err(Error::ChecksumMismatch { expected_digest: e, actual_digest: a })
}

/// The URL of the release manifest of an architecture.
pub fn version_file_url(a: &Arch) -> (r: String)
    ensures
        r@ == manifest_url(*a),
{
    String::from_str("https://dl-cdn.alpinelinux.org/alpine/latest-stable/releases/")
        .concat(get_architecture(a))
        .concat("/latest-releases.yaml")
}

/// The URL of a release file of an architecture.
pub fn tarball_url(a: &Arch, file: &str) -> (r: String)
    ensures
        r@ == archive_url(*a, file@),
{
    String::from_str("https://dl-cdn.alpinelinux.org/alpine/latest-stable/releases/")
        .concat(get_architecture(a))
        .concat("/")
        .concat(file)
}

/// A record of the required flavor is picked whichever side of another
/// record it stands on.
pub proof fn lemma_selection_ignores_order(a: ReleaseEntryView, b: ReleaseEntryView)
    requires
        a.flavor == required_flavor(),
        b.flavor != required_flavor(),
    ensures
        selected(seq![a, b]) == Some(a),
        selected(seq![b, a]) == Some(a),
{
    assert(seq![b, a].drop_first() =~= seq![a]);
    assert(seq![a][0] == a);
    assert(selected(seq![a]) == Some(a));
}

/// Selection finds nothing exactly when no record has the required flavor.
pub proof fn lemma_selection_fails_without_flavor(s: Seq<ReleaseEntryView>)
    ensures
        selected(s) is None <==> forall|i: int| 0 <= i < s.len() ==> s[i].flavor != required_flavor(),
    decreases s.len(),
{
    if s.len() > 0 {
        lemma_selection_fails_without_flavor(s.drop_first());
        if selected(s) is None {
            assert forall|i: int| 0 <= i < s.len() implies s[i].flavor != required_flavor() by {
                if i > 0 {
                    assert(s[i] == s.drop_first()[i - 1]);
                }
            }
        } else if s[0].flavor != required_flavor() {
            let j = choose|j: int| 0 <= j < s.drop_first().len() && s.drop_first()[j].flavor == required_flavor();
            assert(s[j + 1] == s.drop_first()[j]);
        }
    }
}

/// What the caller reports back to the downloader.
pub enum DownloadEvent {
    /// Begin the download.
    Start,
    /// The manifest was fetched and read into its records, or could not be.
    Manifest(Result<Vec<ReleaseEntry>, Error>),
    /// The tarball was streamed to disk: the number of bytes written.
    Archive(Result<u64, Error>),
    /// The written tarball was streamed through SHA-512: its hex digest.
    Digest(Result<String, Error>),
}

/// What the downloader asks the caller to do next.
pub enum DownloadAction {
    /// Fetch the manifest at this URL and read its records.
    FetchManifest(String),
    /// Stream the body at this URL to the destination file.
    FetchArchive(String),
    /// Compute the SHA-512 digest of the destination file.
    HashArchive,
    /// The destination file holds exactly this release's declared bytes.
    Finished(ReleaseEntry),
    /// The download failed; the destination file must not be used.
    Failed(Error),
}

/// Where a download stands: what it awaits from the caller next.
pub enum Stage {
    Idle,
    AwaitManifest,
    AwaitArchive,
    AwaitDigest,
    Done,
}

/// Whether the stage awaits this kind of event.
pub open spec fn awaits(stage: Stage, event: DownloadEvent) -> bool {
    match stage {
        Stage::Idle => event is Start,
        Stage::AwaitManifest => event is Manifest,
        Stage::AwaitArchive => event is Archive,
        Stage::AwaitDigest => event is Digest,
        Stage::Done => false,
    }
}

/// Drives the download and verification of the minimal root filesystem.
///
/// Its state is private: the only way to the digest stage is through a size
/// check, and the only way to `Finished` is through a digest check.
pub struct BaseSystemDownloader {
    arch: Arch,
    stage: Stage,
    entry: Option<ReleaseEntry>,
}

impl BaseSystemDownloader {
    /// A release is known whenever the tarball or its digest is awaited.
    pub closed spec fn wf(&self) -> bool {
        (self.stage is AwaitArchive || self.stage is AwaitDigest) ==> self.entry is Some
    }

    /// The architecture downloaded for.
    pub closed spec fn arch(&self) -> Arch {
        self.arch
    }

    /// What the downloader awaits.
    pub closed spec fn stage(&self) -> Stage {
        self.stage
    }

    /// The selected release, once there is one.
    pub closed spec fn release(&self) -> Option<ReleaseEntryView> {
        match self.entry {
            Some(e) => Some(e@),
            None => None,
        }
    }

    /// A downloader for an architecture that has not started yet.
    pub fn new(architecture: Arch) -> (r: BaseSystemDownloader)
        ensures
            r.wf(),
            r.arch() == architecture,
            r.stage() is Idle,
    {
        BaseSystemDownloader { arch: architecture, stage: Stage::Idle, entry: None }
    }

    /// Takes the outcome of the last action and decides the next one. The
    /// size is checked before a digest is asked for, and only a file of the
    /// declared size and digest is reported `Finished`.
    pub fn download(&mut self, event: DownloadEvent) -> (r: DownloadAction)
        requires
            old(self).wf(),
        ensures
            final(self).wf(),
            final(self).arch() == old(self).arch(),
            !awaits(old(self).stage(), event) ==> r == DownloadAction::Failed(Error::UnexpectedEvent)
                && final(self).stage() is Done,
            old(self).stage() is Idle && event is Start ==> final(self).stage() is AwaitManifest
                && r is FetchManifest && r->FetchManifest_0@ == manifest_url(old(self).arch()),
            old(self).stage() is AwaitManifest ==> (event matches DownloadEvent::Manifest(Err(e))
                ==> r == DownloadAction::Failed(e) && final(self).stage() is Done),
            old(self).stage() is AwaitManifest ==> (event matches DownloadEvent::Manifest(Ok(v)) ==> {
                let s = selected(entry_views(v@));
                &&& s is None ==> r == DownloadAction::Failed(Error::VariantNotFound)
                    && final(self).stage() is Done
                &&& s is Some ==> final(self).stage() is AwaitArchive && final(self).release()->Some_0
                    == s->Some_0 && r is FetchArchive && r->FetchArchive_0@ == archive_url(
                    old(self).arch(),
                    s->Some_0.file,
                )
            }),
            old(self).stage() is AwaitArchive ==> (event matches DownloadEvent::Archive(Err(e))
                ==> r == DownloadAction::Failed(e) && final(self).stage() is Done),
            old(self).stage() is AwaitArchive ==> (event matches DownloadEvent::Archive(Ok(n)) ==> {
                let size = old(self).release()->Some_0.size;
                &&& n != size ==> r == DownloadAction::Failed(
                    Error::SizeMismatch { expected_size: size, actual_size: n },
                ) && final(self).stage() is Done
                &&& n == size ==> r is HashArchive && final(self).stage() is AwaitDigest
                    && final(self).release() == old(self).release()
            }),
            old(self).stage() is AwaitDigest ==> (event matches DownloadEvent::Digest(Err(e))
                ==> r == DownloadAction::Failed(e) && final(self).stage() is Done),
            old(self).stage() is AwaitDigest ==> (event matches DownloadEvent::Digest(Ok(d)) ==> {
                let want = old(self).release()->Some_0.sha512;
                &&& final(self).stage() is Done
                &&& d@ != want ==> r is Failed && r->Failed_0 is ChecksumMismatch
                    && r->Failed_0->expected_digest@ == want && r->Failed_0->actual_digest@ == d@
                &&& d@ == want ==> r is Finished && r->Finished_0@ == old(self).release()->Some_0
            }),
    {
        match (&self.stage, event) {
            (Stage::Idle, DownloadEvent::Start) => {
                self.stage = Stage::AwaitManifest;
                DownloadAction::FetchManifest(version_file_url(&self.arch))
            },
            (Stage::AwaitManifest, DownloadEvent::Manifest(Err(e))) => {
                self.stage = Stage::Done;
                DownloadAction::Failed(e)
            },
            (Stage::AwaitManifest, DownloadEvent::Manifest(Ok(v))) => {
                match parse_release_info(&v) {
                    Ok(e) => {
                        let url = tarball_url(&self.arch, e.file.as_str());
                        self.stage = Stage::AwaitArchive;
                        self.entry = Some(e);
                        DownloadAction::FetchArchive(url)
                    },
                    Err(e) => {
                        self.stage = Stage::Done;
                        DownloadAction::Failed(e)
                    },
                }
            },
            (Stage::AwaitArchive, DownloadEvent::Archive(Err(e))) => {
                self.stage = Stage::Done;
                DownloadAction::Failed(e)
            },
            (Stage::AwaitArchive, DownloadEvent::Archive(Ok(n))) => {
                let size = match &self.entry {
                    Some(e) => e.size,
                    None => 0,
                };
                match verify_tarball_size(n, size) {
                    Ok(()) => {
                        self.stage = Stage::AwaitDigest;
                        DownloadAction::HashArchive
                    },
                    Err(e) => {
                        self.stage = Stage::Done;
                        DownloadAction::Failed(e)
                    },
                }
            },
            (Stage::AwaitDigest, DownloadEvent::Digest(Err(e))) => {
                self.stage = Stage::Done;
                DownloadAction::Failed(e)
            },
            (Stage::AwaitDigest, DownloadEvent::Digest(Ok(d))) => {
                self.stage = Stage::Done;
                match &self.entry {
                    Some(entry) => match verify_checksum(d.as_str(), entry.sha512.as_str()) {
                        Ok(()) => DownloadAction::Finished(entry.copy()),
                        Err(e) => DownloadAction::Failed(e),
                    },
                    None => DownloadAction::Failed(Error::UnexpectedEvent),
                }
            },
            _ => {
                self.stage = Stage::Done;
                DownloadAction::Failed(Error::UnexpectedEvent)
            },
        }
    }
}

} // verus!
