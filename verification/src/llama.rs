//! The local `llama-server` runtime: its executable name, the official release assets
//! for a platform, the checks on a found binary, download progress, and the run
//! through the release assets when the runtime has to be downloaded.

use vstd::prelude::*;
use crate::platform::Platform;
use crate::text::{ends_with, path_debug_repr, path_debug_text, is_err_with, push_text};

verus! {

/// The name of the `llama-server` executable on `platform`.
pub open spec fn exe_name_text(platform: Platform) -> Seq<char> {
    if platform == Platform::Windows {
        "llama-server.exe"@
    } else {
        "llama-server"@
    }
}

/// The name of the `llama-server` executable: with `.exe` on Windows.
pub fn exe_name(platform: Platform) -> (r: &'static str)
    ensures
        r@ == exe_name_text(platform),
{
    if platform == Platform::Windows {
        "llama-server.exe"
    } else {
        "llama-server"
    }
}

/// How a release asset is packed.
#[derive(Clone, Copy, Debug, PartialEq, Eq, Structural)]
pub enum ArchiveKind {
    Zip,
    Tgz,
}

/// A release asset to download.
pub struct ReleaseAsset {
    pub kind: ArchiveKind,
    pub url: String,
}

/// The release download directory for `tag`.
pub open spec fn release_base(tag: Seq<char>) -> Seq<char> {
    "https://github.com/ggerganov/llama.cpp/releases/download/"@ + tag
}

/// The URL of the asset `llama-<tag>-bin-<variant>` of release `tag`.
pub open spec fn asset_url(tag: Seq<char>, variant: Seq<char>) -> Seq<char> {
    release_base(tag) + "/llama-"@ + tag + "-bin-"@ + variant
}

/// The asset variants to try on a platform, in order (Vulkan builds first).
pub open spec fn asset_variants(platform: Platform, aarch64: bool) -> Seq<(ArchiveKind, Seq<char>)> {
    match platform {
        Platform::Windows => seq![
            (ArchiveKind::Zip, "win-vulkan-x64.zip"@),
            (ArchiveKind::Zip, "win-cpu-x64.zip"@),
        ],
        Platform::Linux => seq![
            (ArchiveKind::Tgz, "ubuntu-vulkan-x64.tar.gz"@),
            (ArchiveKind::Tgz, "ubuntu-x64.tar.gz"@),
        ],
        Platform::MacOs => if aarch64 {
            seq![(ArchiveKind::Tgz, "macos-arm64.tar.gz"@)]
        } else {
            seq![(ArchiveKind::Tgz, "macos-x64.tar.gz"@)]
        },
        Platform::Other => Seq::<(ArchiveKind, Seq<char>)>::empty(),
    }
}

/// The assets `urls` lists exactly the variants of the platform, in order.
pub open spec fn assets_match(urls: Seq<ReleaseAsset>, tag: Seq<char>, platform: Platform, aarch64: bool) -> bool {
    let v = asset_variants(platform, aarch64);
    &&& urls.len() == v.len()
    &&& forall|i: int|
        0 <= i < v.len() ==> #[trigger] urls[i].kind == v[i].0 && urls[i].url@ == asset_url(tag, v[i].1)
}

proof fn lemma_ends_with_concat(a: Seq<char>, b: Seq<char>, p: Seq<char>)
    requires
        p.len() <= b.len(),
    ensures
        ends_with(a + b, p) == ends_with(b, p),
{
    let s = a + b;
    assert(s.subrange(s.len() - p.len(), s.len() as int) =~= b.subrange(b.len() - p.len(), b.len() as int));
}

proof fn lemma_zip_name(v: Seq<char>)
    requires
        v.len() >= 7,
        v.subrange(v.len() - 4, v.len() as int) == ".zip"@,
    ensures
        ends_with(v, ".zip"@),
        !ends_with(v, ".tar.gz"@),
{
    reveal_strlit(".zip");
    reveal_strlit(".tar.gz");
    assert(v[v.len() - 4] == v.subrange(v.len() - 4, v.len() as int)[0]);
    if ends_with(v, ".tar.gz"@) {
        assert(v[v.len() - 4] == v.subrange(v.len() - 7, v.len() as int)[3]);
    }
}

proof fn lemma_tgz_name(v: Seq<char>)
    requires
        v.len() >= 7,
        v.subrange(v.len() - 7, v.len() as int) == ".tar.gz"@,
    ensures
        ends_with(v, ".tar.gz"@),
        !ends_with(v, ".zip"@),
{
    reveal_strlit(".zip");
    reveal_strlit(".tar.gz");
    assert(v[v.len() - 4] == v.subrange(v.len() - 7, v.len() as int)[3]);
    if ends_with(v, ".zip"@) {
        assert(v[v.len() - 4] == v.subrange(v.len() - 4, v.len() as int)[0]);
    }
}

/// An asset's archive kind matches its file: it is unpacked as a zip exactly when its
/// URL ends in `.zip`, and as a gzip tarball exactly when it ends in `.tar.gz`; the
/// Windows builds are zips and the Linux and macOS builds tarballs.
pub proof fn law_asset_kind_matches_file(
    urls: Seq<ReleaseAsset>,
    tag: Seq<char>,
    platform: Platform,
    aarch64: bool,
    i: int,
)
    requires
        assets_match(urls, tag, platform, aarch64),
        0 <= i < urls.len(),
    ensures
        urls[i].kind == ArchiveKind::Zip <==> ends_with(urls[i].url@, ".zip"@),
        urls[i].kind == ArchiveKind::Tgz <==> ends_with(urls[i].url@, ".tar.gz"@),
        urls[i].kind == ArchiveKind::Zip <==> platform == Platform::Windows,
{
    let vs = asset_variants(platform, aarch64);
    let (kind, v) = vs[i];
    assert(urls[i].kind == kind && urls[i].url@ == asset_url(tag, v));
    let head = release_base(tag) + "/llama-"@ + tag + "-bin-"@;
    assert(asset_url(tag, v) == head + v);
    reveal_strlit(".zip");
    reveal_strlit(".tar.gz");
    reveal_strlit("win-vulkan-x64.zip");
    reveal_strlit("win-cpu-x64.zip");
    reveal_strlit("ubuntu-vulkan-x64.tar.gz");
    reveal_strlit("ubuntu-x64.tar.gz");
    reveal_strlit("macos-arm64.tar.gz");
    reveal_strlit("macos-x64.tar.gz");
    assert(v.len() >= 7);
    lemma_ends_with_concat(head, v, ".zip"@);
    lemma_ends_with_concat(head, v, ".tar.gz"@);
    if kind == ArchiveKind::Zip {
        assert(v.subrange(v.len() - 4, v.len() as int) =~= ".zip"@);
        lemma_zip_name(v);
    } else {
        assert(v.subrange(v.len() - 7, v.len() as int) =~= ".tar.gz"@);
        lemma_tgz_name(v);
    }
}

fn make_asset(tag: &str, kind: ArchiveKind, variant: &str) -> (r: ReleaseAsset)
    ensures
        r.kind == kind,
        r.url@ == asset_url(tag@, variant@),
{
    let mut url = String::new();
    push_text(&mut url, "https://github.com/ggerganov/llama.cpp/releases/download/");
    push_text(&mut url, tag);
    push_text(&mut url, "/llama-");
    push_text(&mut url, tag);
    push_text(&mut url, "-bin-");
    push_text(&mut url, variant);
    ReleaseAsset { kind, url }
}

/// The official release assets of `tag` that hold a `llama-server` for the platform,
/// in the order to try them (on macOS by CPU architecture); none on other platforms.
pub fn release_urls(tag: &str, platform: Platform, aarch64: bool) -> (r: Vec<ReleaseAsset>)
    ensures
        assets_match(r@, tag@, platform, aarch64),
{
    let mut r: Vec<ReleaseAsset> = Vec::new();
    match platform {
        Platform::Windows => {
            r.push(make_asset(tag, ArchiveKind::Zip, "win-vulkan-x64.zip"));
            r.push(make_asset(tag, ArchiveKind::Zip, "win-cpu-x64.zip"));
        },
        Platform::Linux => {
            r.push(make_asset(tag, ArchiveKind::Tgz, "ubuntu-vulkan-x64.tar.gz"));
            r.push(make_asset(tag, ArchiveKind::Tgz, "ubuntu-x64.tar.gz"));
        },
        Platform::MacOs => {
            if aarch64 {
                r.push(make_asset(tag, ArchiveKind::Tgz, "macos-arm64.tar.gz"));
            } else {
                r.push(make_asset(tag, ArchiveKind::Tgz, "macos-x64.tar.gz"));
            }
        },
        Platform::Other => {},
    }
    r
}

/// The name of the temporary download for an asset: `llama-runtime.zip` or
/// `llama-runtime.tar.gz`.
pub fn download_file_name(kind: ArchiveKind) -> (r: &'static str)
    ensures
        r@ == if kind == ArchiveKind::Zip {
            "llama-runtime.zip"@
        } else {
            "llama-runtime.tar.gz"@
        },
{
    if kind == ArchiveKind::Zip {
        "llama-runtime.zip"
    } else {
        "llama-runtime.tar.gz"
    }
}

/// Whether an asset can be unpacked on the platform: tarballs everywhere, zip files on
/// Windows only; the error otherwise.
pub fn extraction_supported(kind: ArchiveKind, platform: Platform) -> (r: Result<(), String>)
    ensures
        r is Ok <==> (kind == ArchiveKind::Tgz || platform == Platform::Windows),
        !(r is Ok) ==> is_err_with(r, "zip extract not supported on this OS"@),
{
    if kind == ArchiveKind::Tgz || platform == Platform::Windows {
        Ok(())
    } else {
        Err("zip extract not supported on this OS".to_string())
    }
}

/// Whether the first bytes of a file are the ELF magic number `7F 45 4C 46`.
pub open spec fn elf_magic(head: Seq<u8>) -> bool {
    head == seq![0x7fu8, 0x45u8, 0x4cu8, 0x46u8]
}

/// Whether the (up to) four bytes read from the start of a file are the ELF magic
/// number; fewer than four bytes are not.
pub fn is_elf_executable(head: &[u8]) -> (r: bool)
    ensures
        r == elf_magic(head@),
{
    if head.len() != 4 {
        return false;
    }
    let r = head[0] == 0x7f && head[1] == 0x45 && head[2] == 0x4c && head[3] == 0x46;
    assert(r ==> head@ =~= seq![0x7fu8, 0x45u8, 0x4cu8, 0x46u8]);
    r
}

/// The error for a missing binary.
pub open spec fn not_found_text(path: Seq<char>) -> Seq<char> {
    "llama-server not found at "@ + path_debug_repr(path)
}

/// The error for a binary that is not a Linux executable.
pub open spec fn not_elf_text(path: Seq<char>) -> Seq<char> {
    path_debug_repr(path)
        + " is not a Linux executable (found Windows build or wrong file). Delete it and restart FlowSight to download the correct llama-server."@
}

/// Checks a found `llama-server`: it must be a file; off Windows it must also start
/// with the ELF magic number.
pub fn validate_binary(path: &str, platform: Platform, is_file: bool, is_elf: bool) -> (r: Result<(), String>)
    ensures
        !is_file ==> is_err_with(r, not_found_text(path@)),
        is_file && platform == Platform::Windows ==> r is Ok,
        is_file && platform != Platform::Windows ==> if is_elf {
            r is Ok
        } else {
            is_err_with(r, not_elf_text(path@))
        },
{
    if !is_file {
        let mut e = String::new();
        push_text(&mut e, "llama-server not found at ");
        let d = path_debug_text(path);
        push_text(&mut e, d.as_str());
        return Err(e);
    }
    if platform == Platform::Windows || is_elf {
        return Ok(());
    }
    let mut e = path_debug_text(path);
    push_text(
        &mut e,
        " is not a Linux executable (found Windows build or wrong file). Delete it and restart FlowSight to download the correct llama-server.",
    );
    Err(e)
}

/// The percentage of a download reported as progress: 0 when the total size is
/// unknown (0), else the downloaded share of the total, capped at 100.
pub open spec fn percent_of(downloaded: int, total: int) -> int {
    if total > 0 {
        let d = if downloaded < total {
            downloaded
        } else {
            total
        };
        let p = d * 100 / total;
        if p < 100 {
            p
        } else {
            100
        }
    } else {
        0
    }
}

/// Progress never exceeds 100, and it grows with the downloaded size.
pub proof fn law_percent_bounded_and_monotone(d1: int, d2: int, total: int)
    requires
        0 <= d1 <= d2,
    ensures
        0 <= percent_of(d1, total) <= 100,
        percent_of(d1, total) <= percent_of(d2, total),
{
    if total > 0 {
        let a = if d1 < total {
            d1
        } else {
            total
        };
        let b = if d2 < total {
            d2
        } else {
            total
        };
        assert(a * 100 / total <= b * 100 / total) by (nonlinear_arith)
            requires
                0 <= a <= b,
                total > 0,
        ;
        assert(0 <= a * 100 / total) by (nonlinear_arith)
            requires
                0 <= a,
                total > 0,
        ;
    }
}

/// The download progress percentage.
pub fn download_percent(downloaded: u64, total: u64) -> (r: u8)
    requires
        (if downloaded < total {
            downloaded
        } else {
            total
        }) * 100 <= u64::MAX,
    ensures
        r as int == percent_of(downloaded as int, total as int),
{
    if total > 0 {
        let d = if downloaded < total {
            downloaded
        } else {
            total
        };
        let p = d * 100 / total;
        assert(p <= 100) by (nonlinear_arith)
            requires
                d <= total,
                total > 0,
                p as int == (d as int * 100) / (total as int),
        ;
        p as u8
    } else {
        0
    }
}

/// Whether an HTTP status code is a success (`StatusCode::is_success`: 200 to 299).
pub open spec fn http_success(code: u16) -> bool {
    200 <= code && code <= 299
}

/// Checks the HTTP status of a download: the error names the status (as `StatusCode`
/// displays it, code and reason) and the URL.
pub fn download_status_check(code: u16, status_text: &str, url: &str) -> (r: Result<(), String>)
    ensures
        r is Ok <==> http_success(code),
        !http_success(code) ==> is_err_with(r, "HTTP "@ + status_text@ + " for "@ + url@),
{
    if 200 <= code && code <= 299 {
        Ok(())
    } else {
        let mut e = String::new();
        push_text(&mut e, "HTTP ");
        push_text(&mut e, status_text);
        push_text(&mut e, " for ");
        push_text(&mut e, url);
        Err(e)
    }
}

/// The release tag read from the latest-release answer, or the error when the answer
/// has no `tag_name` text.
pub fn latest_tag(tag_name: Option<String>) -> (r: Result<String, String>)
    ensures
        match tag_name {
            Some(t) => r == Ok::<String, String>(t),
            None => is_err_with(r, "releases/latest missing tag_name"@),
        },
{
    match tag_name {
        Some(t) => Ok(t),
        None => Err("releases/latest missing tag_name".to_string()),
    }
}

/// What the caller does next while installing the runtime from the release assets.
#[derive(Debug)]
pub enum InstallStep {
    /// Download this asset to `download_file_name(kind)` in the downloads directory,
    /// unpack it into the runtime directory if `extraction_supported`, look for the
    /// binary there, and report the outcome with `RuntimeInstall::step`.
    Download { kind: ArchiveKind, url: String },
    /// A binary was found: check it with `validate_binary` and use it.
    Validate(String),
    /// Give up with this error.
    Fail(String),
}

/// What came of trying one asset.
pub enum AttemptOutcome {
    /// The download or the unpacking failed with this error.
    Failed(String),
    /// The asset was unpacked but holds no `llama-server`.
    NoBinary,
    /// The asset was unpacked and the binary found at this path.
    Binary(String),
}

/// The error when the platform has no release asset.
pub open spec fn unsupported_os_text() -> Seq<char> {
    "Unsupported OS for automatic llama-server download."@
}

/// The error when no asset gave a binary.
pub open spec fn install_failure_text(last_err: Seq<char>) -> Seq<char> {
    "Could not install llama-server automatically. Last error: "@ + last_err
}

/// The error recorded for an asset that holds no binary.
pub open spec fn no_binary_text() -> Seq<char> {
    "extracted archive but llama-server not found"@
}

/// `step` downloads the asset `a`.
pub open spec fn downloads(step: InstallStep, a: ReleaseAsset) -> bool {
    step matches InstallStep::Download { kind, url } && kind == a.kind && url@ == a.url@
}

/// `step` gives up with `text`.
pub open spec fn gives_up(step: InstallStep, text: Seq<char>) -> bool {
    step matches InstallStep::Fail(e) && e@ == text
}

/// A run through the release assets, one at a time, until one gives a binary.
pub struct RuntimeInstall {
    assets: Vec<ReleaseAsset>,
    tried: usize,
    last_err: String,
    awaiting: bool,
}

impl RuntimeInstall {
    /// The assets, in the order tried.
    pub closed spec fn assets(&self) -> Seq<ReleaseAsset> {
        self.assets@
    }

    /// How many assets have been started.
    pub closed spec fn tried(&self) -> nat {
        self.tried as nat
    }

    /// The error of the last failed asset (empty before any failure).
    pub closed spec fn last_error(&self) -> Seq<char> {
        self.last_err@
    }

    /// Whether the outcome of a started asset is awaited.
    pub closed spec fn awaiting(&self) -> bool {
        self.awaiting
    }

    /// No more assets were started than there are, and an awaited one was started.
    pub closed spec fn wf(&self) -> bool {
        &&& self.tried <= self.assets@.len()
        &&& self.awaiting ==> self.tried >= 1
    }

    fn advance(&mut self) -> (step: InstallStep)
        requires
            old(self).wf(),
        ensures
            final(self).wf(),
            final(self).assets() == old(self).assets(),
            final(self).last_error() == old(self).last_error(),
            final(self).awaiting() == (old(self).tried() < old(self).assets().len()),
            old(self).tried() < old(self).assets().len() ==> final(self).tried() == old(self).tried() + 1
                && downloads(step, old(self).assets()[old(self).tried() as int]),
            old(self).tried() >= old(self).assets().len() ==> final(self).tried() == old(self).tried()
                && gives_up(step, install_failure_text(old(self).last_error())),
    {
        if self.tried < self.assets.len() {
            let kind = self.assets[self.tried].kind;
            let url = self.assets[self.tried].url.clone();
            self.tried = self.tried + 1;
            self.awaiting = true;
            InstallStep::Download { kind, url }
        } else {
            self.awaiting = false;
            let mut e = String::new();
            push_text(&mut e, "Could not install llama-server automatically. Last error: ");
            push_text(&mut e, self.last_err.as_str());
            InstallStep::Fail(e)
        }
    }

    /// Starts on the assets of a release (`release_urls`): the first is downloaded,
    /// or, when the platform has none, the install gives up.
    pub fn start(assets: Vec<ReleaseAsset>) -> (r: (Self, InstallStep))
        ensures
            r.0.wf(),
            r.0.assets() == assets@,
            r.0.last_error() == Seq::<char>::empty(),
            assets@.len() == 0 ==> gives_up(r.1, unsupported_os_text()) && !r.0.awaiting(),
            assets@.len() > 0 ==> downloads(r.1, assets@[0]) && r.0.tried() == 1 && r.0.awaiting(),
    {
        if assets.len() == 0 {
            let run = RuntimeInstall { assets, tried: 0, last_err: String::new(), awaiting: false };
            return (run, InstallStep::Fail("Unsupported OS for automatic llama-server download.".to_string()));
        }
        let mut run = RuntimeInstall { assets, tried: 0, last_err: String::new(), awaiting: false };
        let step = run.advance();
        (run, step)
    }

    /// Takes the outcome of the asset last started: a found binary is validated and
    /// used; otherwise its error is kept and the next asset is downloaded, and once
    /// none is left the install gives up naming the last error.
    pub fn step(&mut self, outcome: AttemptOutcome) -> (step: InstallStep)
        requires
            old(self).wf(),
            old(self).awaiting(),
        ensures
            final(self).wf(),
            final(self).assets() == old(self).assets(),
            outcome matches AttemptOutcome::Binary(p) ==> step matches InstallStep::Validate(q) && q@
                == p@ && !final(self).awaiting() && final(self).tried() == old(self).tried(),
            !(outcome is Binary) ==> {
                let err = match outcome {
                    AttemptOutcome::Failed(e) => e@,
                    _ => no_binary_text(),
                };
                &&& final(self).last_error() == err
                &&& final(self).awaiting() == (old(self).tried() < old(self).assets().len())
                &&& old(self).tried() < old(self).assets().len() ==> final(self).tried() == old(
                    self,
                ).tried() + 1 && downloads(step, old(self).assets()[old(self).tried() as int])
                &&& old(self).tried() >= old(self).assets().len() ==> gives_up(
                    step,
                    install_failure_text(err),
                )
            },
    {
        self.awaiting = false;
        match outcome {
            AttemptOutcome::Binary(p) => InstallStep::Validate(p),
            AttemptOutcome::Failed(e) => {
                self.last_err = e;
                self.advance()
            },
            AttemptOutcome::NoBinary => {
                self.last_err = "extracted archive but llama-server not found".to_string();
                self.advance()
            },
        }
    }
}

} // verus!
