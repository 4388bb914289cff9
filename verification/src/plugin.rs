//! Plugin lifecycle: resolving plugin names to download URLs (a primary and
//! one alternate naming convention), selecting shared-library files out of a
//! plugin archive, listing the plugins a release offers, and mapping plugin
//! names to on-disk library file names for removal.
//!
//! Of the two matching schemes found in the wild for removal, this crate
//! uses one canonical rule: the expected library file name is derived from
//! the plugin name and the platform's library extension, and directory
//! entries are matched against it exactly.

use vstd::prelude::*;

use crate::archive;
use crate::archive::{basename_of, extension_of};
use crate::installer::InstallError;
use crate::platform::{arch_display, os_display, platform_token, Platform, OS};
use crate::strutil;
use crate::strutil::{
    ends_with, find_char, is_substring, join_with, split_on, split_str, starts_with, upper_char,
};

verus! {

/// One plugin version's published requirements, as the manifest lists them.
pub struct PluginVersionInfo {
    pub deps: Vec<String>,
    pub platform: Vec<String>,
}

/// The published plugin manifest: for each plugin, its versions and their
/// requirements, in the order published.
pub struct PluginManifest {
    pub plugins: Vec<(String, Vec<(String, PluginVersionInfo)>)>,
}

/// The published version manifest of a plugin repository.
pub struct VersionManifest {
    pub maintained: Vec<String>,
    pub deprecated: Vec<String>,
}

/// Errors of the plugin layer.
#[derive(Debug, Clone, PartialEq, Eq)]
pub enum PluginError {
    /// Neither naming convention yielded a downloadable artifact.
    NotFound { plugin: String, os: String, arch: String, version: String },
    /// No installed library file matched the plugin name.
    NotInstalled { plugin: String },
}

/// One step of the plugin install sequence.
#[derive(Debug, Clone, PartialEq, Eq)]
pub enum PluginInstallStep {
    /// Download from this URL next.
    Download(String),
    /// Both naming conventions failed; terminal, never retried.
    Fail(PluginError),
}

/// The plugin name as embedded in artifact URLs: only the first `-`
/// becomes `_`.
pub open spec fn url_plugin_name_spec(name: Seq<char>) -> Seq<char> {
    let i = find_char(name, '-');
    if i < 0 {
        name
    } else {
        name.take(i) + "_"@ + name.skip(i + 1)
    }
}

/// The primary plugin download URL: the release tag and the version appear
/// both, the version embedded in the file name.
pub open spec fn plugin_primary_url_spec(p: Platform, version: Seq<char>, name: Seq<char>) -> Seq<
    char,
> {
    "https://github.com/WasmEdge/WasmEdge/releases/download/"@ + version + "/WasmEdge-plugin-"@
        + url_plugin_name_spec(name) + "-"@ + version + "-"@ + platform_token(p) + ".tar.gz"@
}

/// The alternate plugin download URL: as the primary, without the version
/// embedded in the file name.
pub open spec fn plugin_alternate_url_spec(p: Platform, version: Seq<char>, name: Seq<char>) -> Seq<
    char,
> {
    "https://github.com/WasmEdge/WasmEdge/releases/download/"@ + version + "/WasmEdge-plugin-"@
        + url_plugin_name_spec(name) + "-"@ + platform_token(p) + ".tar.gz"@
}

/// Whether an archive entry's path names a shared library.
pub open spec fn is_plugin_lib(path: Seq<char>) -> bool {
    extension_of(path) == Some("so"@) || extension_of(path) == Some("dll"@) || extension_of(path)
        == Some("dylib"@)
}

/// The shared-library entries of a plugin archive: every regular file and
/// every link whose extension names a shared library, as (file name,
/// contents, link target), in archive order. All other entries are ignored.
pub open spec fn plugin_files_of(
    entries: Seq<(Seq<char>, Seq<u8>, bool, Option<Seq<char>>)>,
) -> Seq<(Seq<char>, Seq<u8>, Option<Seq<char>>)>
    decreases entries.len(),
{
    if entries.len() == 0 {
        Seq::empty()
    } else {
        let e = entries[0];
        let rest = plugin_files_of(entries.drop_first());
        if e.2 && is_plugin_lib(e.0) {
            seq![(basename_of(e.0), e.1, Option::<Seq<char>>::None)] + rest
        } else if e.3 is Some && is_plugin_lib(e.0) {
            seq![(basename_of(e.0), e.1, e.3)] + rest
        } else {
            rest
        }
    }
}

/// The shared-library extension of a platform.
pub open spec fn lib_ext(os: OS) -> Seq<char> {
    match os {
        OS::Linux(_) => ".so"@,
        OS::Darwin => ".dylib"@,
        OS::Windows => ".dll"@,
    }
}

/// A segment with its first character upper-cased; an empty segment stays
/// empty.
pub open spec fn title_of(seg: Seq<char>) -> Seq<char> {
    if seg.len() == 0 {
        seg
    } else {
        seq![upper_char(seg[0])] + seg.drop_first()
    }
}

/// The segments, each title-cased, concatenated without separators.
pub open spec fn title_concat(parts: Seq<Seq<char>>) -> Seq<char>
    decreases parts.len(),
{
    if parts.len() == 0 {
        Seq::empty()
    } else {
        title_of(parts[0]) + title_concat(parts.drop_first())
    }
}

pub proof fn lemma_title_concat_snoc(parts: Seq<Seq<char>>, i: int)
    requires
        0 <= i < parts.len(),
    ensures
        title_concat(parts.take(i + 1)) == title_concat(parts.take(i)) + title_of(parts[i]),
    decreases i,
{
    if i == 0 {
        assert(parts.take(1) =~= seq![parts[0]]);
        assert(parts.take(1).drop_first() =~= Seq::<Seq<char>>::empty());
        assert(parts.take(0) =~= Seq::<Seq<char>>::empty());
        assert(title_concat(parts.take(i + 1)) =~= title_concat(parts.take(i)) + title_of(
            parts[i],
        ));
    } else {
        lemma_title_concat_snoc(parts.drop_first(), i - 1);
        assert(parts.drop_first().take(i) =~= parts.take(i + 1).drop_first());
        assert(parts.drop_first().take(i - 1) =~= parts.take(i).drop_first());
        assert(parts.take(i + 1)[0] == parts[0]);
        assert(parts.take(i)[0] == parts[0]);
        assert(parts.drop_first()[i - 1] == parts[i]);
        assert(title_concat(parts.take(i + 1)) == title_of(parts[0]) + title_concat(
            parts.drop_first().take(i),
        ));
        assert(title_concat(parts.take(i)) == title_of(parts[0]) + title_concat(
            parts.drop_first().take(i - 1),
        ));
        assert(title_concat(parts.take(i + 1)) =~= title_concat(parts.take(i)) + title_of(
            parts[i],
        ));
    }
}

/// The on-disk library file name a plugin name maps to: the WasiNN and
/// WasiCrypto families have fixed names; a `wasmedge-` name title-cases and
/// concatenates its remaining segments; any other name is embedded whole.
/// The extension is the platform's.
pub open spec fn plugin_library_name_spec(name: Seq<char>, os: OS) -> Seq<char> {
    if starts_with(name, "wasi-nn-"@) {
        "libwasmedgePluginWasiNN"@ + lib_ext(os)
    } else if starts_with(name, "wasi-crypto"@) {
        "libwasmedgePluginWasiCrypto"@ + lib_ext(os)
    } else if starts_with(name, "wasmedge-"@) {
        "libwasmedgePlugin"@ + title_concat(split_on(name.skip(9), '-')) + lib_ext(os)
    } else {
        "libwasmedgePlugin"@ + name + lib_ext(os)
    }
}

/// The directory entries that match a library file name exactly.
pub open spec fn matching_files(entries: Seq<Seq<char>>, lib: Seq<char>) -> Seq<Seq<char>>
    decreases entries.len(),
{
    if entries.len() == 0 {
        Seq::empty()
    } else {
        let rest = matching_files(entries.drop_first(), lib);
        if entries[0] == lib {
            seq![entries[0]] + rest
        } else {
            rest
        }
    }
}

/// The plugin name a release asset advertises, if its name parses: the
/// asset must carry the plugin prefix and the archive suffix and split on
/// `-` into at least four segments; the name is the middle segments,
/// re-joined, with the leading two and trailing two dropped.
pub open spec fn plugin_asset_name(asset: Seq<char>) -> Option<Seq<char>> {
    let parts = split_on(asset, '-');
    if starts_with(asset, "WasmEdge-plugin-"@) && ends_with(asset, ".tar.gz"@) && parts.len()
        >= 4 {
        Some(join_with(parts.subrange(2, parts.len() - 2), '-'))
    } else {
        None
    }
}

/// The set of names in a sequence.
pub open spec fn name_set(names: Seq<Seq<char>>) -> Set<Seq<char>> {
    Set::new(|x: Seq<char>| names.contains(x))
}

/// The plugins a release's asset list advertises: each parsed plugin name
/// once, at its first occurrence, with the runtime version and whether the
/// asset names the current platform's token.
pub open spec fn listed_plugins(
    assets: Seq<Seq<char>>,
    version: Seq<char>,
    token: Seq<char>,
    seen: Set<Seq<char>>,
) -> Seq<(Seq<char>, Seq<char>, bool)>
    decreases assets.len(),
{
    if assets.len() == 0 {
        Seq::empty()
    } else {
        match plugin_asset_name(assets[0]) {
            Some(nm) => if seen.contains(nm) {
                listed_plugins(assets.drop_first(), version, token, seen)
            } else {
                seq![(nm, version, is_substring(token, assets[0]))] + listed_plugins(
                    assets.drop_first(),
                    version,
                    token,
                    seen.insert(nm),
                )
            },
            None => listed_plugins(assets.drop_first(), version, token, seen),
        }
    }
}

/// Whether one of the names equals `nm`.
fn contains_name(names: &Vec<String>, nm: &str) -> (r: bool)
    ensures
        r == names.deep_view().contains(nm@),
{
    let mut j: usize = 0;
    while j < names.len()
        invariant
            j <= names@.len(),
            forall|k: int| 0 <= k < j ==> names.deep_view()[k] != nm@,
        decreases names@.len() - j,
    {
        if strutil::str_eq(names[j].as_str(), nm) {
            proof {
                assert(names.deep_view()[j as int] == nm@);
            }
            return true;
        }
        j = j + 1;
    }
    false
}

/// Manages plugins of one runtime version on one platform.
pub struct PluginManager {
    pub runtime_version: String,
    pub platform: Platform,
}

impl PluginManager {
    pub fn new(runtime_version: String, platform: Platform) -> (s: PluginManager)
        ensures
            s.runtime_version == runtime_version,
            s.platform == platform,
    {
        PluginManager { runtime_version, platform }
    }

    /// The platform token embedded in plugin artifact names.
    pub fn get_platform_string(&self) -> (r: String)
        ensures
            r@ == platform_token(self.platform),
    {
        self.platform.token()
    }

    /// The release-metadata API URL for this runtime version.
    pub fn release_api_url(&self) -> (r: String)
        ensures
            r@ == "https://api.github.com/repos/WasmEdge/WasmEdge/releases/tags/"@
                + self.runtime_version@,
    {
        let mut r = String::new();
        r.append("https://api.github.com/repos/WasmEdge/WasmEdge/releases/tags/");
        r.append(self.runtime_version.as_str());
        r
    }

    /// The published version-manifest URL of a plugin repository.
    pub fn version_manifest_url(&self, repo: &str) -> (r: String)
        ensures
            r@ == "https://raw.githubusercontent.com/WasmEdge/WasmEdge/master/plugins/"@ + repo@
                + "/version.json"@,
    {
        let mut r = String::new();
        r.append("https://raw.githubusercontent.com/WasmEdge/WasmEdge/master/plugins/");
        r.append(repo);
        r.append("/version.json");
        r
    }

    /// The plugin name as embedded in artifact URLs.
    pub fn url_plugin_name(&self, plugin_name: &str) -> (r: String)
        ensures
            r@ == url_plugin_name_spec(plugin_name@),
    {
        match strutil::find_in_str(plugin_name, '-') {
            Some(i) => {
                let n = plugin_name.unicode_len();
                let head = plugin_name.substring_char(0, i);
                let tail = plugin_name.substring_char(i + 1, n);
                let mut r = head.to_owned();
                r.append("_");
                r.append(tail);
                proof {
                    assert(plugin_name@.subrange(0, i as int) =~= plugin_name@.take(i as int));
                    assert(plugin_name@.subrange(i + 1, plugin_name@.len() as int)
                        =~= plugin_name@.skip(i + 1));
                }
                r
            },
            None => plugin_name.to_owned(),
        }
    }

    /// The two download URLs tried for a plugin, in order: the primary
    /// convention, then the single alternate.
    pub fn plugin_download_urls(&self, plugin_name: &str) -> (r: (String, String))
        ensures
            r.0@ == plugin_primary_url_spec(self.platform, self.runtime_version@, plugin_name@),
            r.1@ == plugin_alternate_url_spec(self.platform, self.runtime_version@, plugin_name@),
    {
        let url_name = self.url_plugin_name(plugin_name);
        let token = self.get_platform_string();
        let mut primary = String::new();
        primary.append("https://github.com/WasmEdge/WasmEdge/releases/download/");
        primary.append(self.runtime_version.as_str());
        primary.append("/WasmEdge-plugin-");
        primary.append(url_name.as_str());
        primary.append("-");
        primary.append(self.runtime_version.as_str());
        primary.append("-");
        primary.append(token.as_str());
        primary.append(".tar.gz");
        let mut alternate = String::new();
        alternate.append("https://github.com/WasmEdge/WasmEdge/releases/download/");
        alternate.append(self.runtime_version.as_str());
        alternate.append("/WasmEdge-plugin-");
        alternate.append(url_name.as_str());
        alternate.append("-");
        alternate.append(token.as_str());
        alternate.append(".tar.gz");
        (primary, alternate)
    }

    /// The terminal error after both download attempts failed: it names the
    /// plugin, the platform, and the runtime version whose release page
    /// lists what is available.
    pub fn install_failure(&self, plugin_name: &str) -> (r: PluginError)
        ensures
            r matches PluginError::NotFound { plugin, os, arch, version } && plugin@
                == plugin_name@ && os@ == os_display(self.platform.os) && arch@ == arch_display(
                self.platform.arch,
            ) && version@ == self.runtime_version@,
    {
        PluginError::NotFound {
            plugin: plugin_name.to_owned(),
            os: self.platform.os.name().to_owned(),
            arch: self.platform.arch.name().to_owned(),
            version: self.runtime_version.clone(),
        }
    }

    /// The plugins the release's asset list advertises, each name once at
    /// its first occurrence, with the runtime version and whether the asset
    /// is compatible with the current platform.
    pub fn list_available_plugins(&self, asset_names: &Vec<String>) -> (r: Vec<
        (String, String, bool),
    >)
        ensures
            r.deep_view() == listed_plugins(
                asset_names.deep_view(),
                self.runtime_version@,
                platform_token(self.platform),
                Set::empty(),
            ),
    {
        let ghost views = asset_names.deep_view();
        let ghost rv = self.runtime_version@;
        let ghost tok = platform_token(self.platform);
        let token = self.get_platform_string();
        let mut out: Vec<(String, String, bool)> = Vec::new();
        let mut seen: Vec<String> = Vec::new();
        let mut i: usize = 0;
        proof {
            assert(views.skip(0) =~= views);
            assert(name_set(seen.deep_view()) =~= Set::<Seq<char>>::empty());
        }
        while i < asset_names.len()
            invariant
                i <= asset_names@.len(),
                views == asset_names.deep_view(),
                rv == self.runtime_version@,
                tok == platform_token(self.platform),
                token@ == tok,
                listed_plugins(views, rv, tok, Set::empty()) =~~= out.deep_view()
                    + listed_plugins(views.skip(i as int), rv, tok, name_set(seen.deep_view())),
            decreases asset_names@.len() - i,
        {
            let ghost prev_out = out.deep_view();
            let ghost prev_seen = seen.deep_view();
            let asset = &asset_names[i];
            let ghost av = views[i as int];
            proof {
                assert(av == asset@);
                assert(views.skip(i as int).drop_first() =~= views.skip(i + 1));
                assert(views.skip(i as int)[0] == av);
            }
            if strutil::starts_with_str(asset.as_str(), "WasmEdge-plugin-")
                && strutil::ends_with_str(asset.as_str(), ".tar.gz") {
                let parts = split_str(asset.as_str(), '-');
                if parts.len() >= 4 {
                    let nm = strutil::join_range(&parts, 2, parts.len() - 2, '-');
                    proof {
                        assert(plugin_asset_name(av) == Some(nm@));
                    }
                    if !contains_name(&seen, nm.as_str()) {
                        let compatible = strutil::contains_str(asset.as_str(), token.as_str());
                        let ghost nv = nm@;
                        seen.push(nm.clone());
                        out.push((nm, self.runtime_version.clone(), compatible));
                        proof {
                            assert(out.deep_view() =~~= prev_out + seq![(nv, rv, compatible)]);
                            assert(seen.deep_view() =~= prev_seen.push(nv));
                            assert forall|x: Seq<char>|
                                prev_seen.push(nv).contains(x) <==> prev_seen.contains(x) || x
                                    == nv by {
                                if prev_seen.push(nv).contains(x) {
                                    let idx = choose|idx: int|
                                        0 <= idx < prev_seen.push(nv).len() && prev_seen.push(
                                            nv,
                                        )[idx] == x;
                                    if idx < prev_seen.len() {
                                        assert(prev_seen[idx] == x);
                                    }
                                }
                                if prev_seen.contains(x) {
                                    let idx = choose|idx: int|
                                        0 <= idx < prev_seen.len() && prev_seen[idx] == x;
                                    assert(prev_seen.push(nv)[idx] == x);
                                }
                                if x == nv {
                                    assert(prev_seen.push(nv)[prev_seen.len() as int] == x);
                                }
                            }
                            assert(name_set(prev_seen.push(nv)) =~= name_set(prev_seen).insert(
                                nv,
                            ));
                        }
                    }
                }
            } else {
                proof {
                    assert(plugin_asset_name(av) is None);
                }
            }
            i = i + 1;
        }
        proof {
            assert(views.skip(asset_names@.len() as int) =~= Seq::empty());
        }
        out
    }

    /// The next action of the plugin install sequence, by how many download
    /// attempts have failed so far: first the primary URL, after one failure
    /// the single alternate, and after both the terminal not-found error.
    /// There is no third attempt, no retry and no backoff.
    pub fn install_plugin_step(&self, plugin_name: &str, failed_attempts: usize) -> (r:
        PluginInstallStep)
        ensures
            match r {
                PluginInstallStep::Download(u) => (failed_attempts == 0 && u@
                    == plugin_primary_url_spec(self.platform, self.runtime_version@, plugin_name@))
                    || (failed_attempts == 1 && u@ == plugin_alternate_url_spec(
                    self.platform,
                    self.runtime_version@,
                    plugin_name@,
                )),
                PluginInstallStep::Fail(e) => failed_attempts >= 2 && (e matches
                    PluginError::NotFound { plugin, os, arch, version } && plugin@ == plugin_name@
                    && os@ == os_display(self.platform.os) && arch@ == arch_display(
                    self.platform.arch,
                ) && version@ == self.runtime_version@),
            },
    {
        if failed_attempts == 0 {
            let (primary, _) = self.plugin_download_urls(plugin_name);
            PluginInstallStep::Download(primary)
        } else if failed_attempts == 1 {
            let (_, alternate) = self.plugin_download_urls(plugin_name);
            PluginInstallStep::Download(alternate)
        } else {
            PluginInstallStep::Fail(self.install_failure(plugin_name))
        }
    }

    /// Reads a plugin archive and selects the shared-library entries, files
    /// and links both, to place flat into the plugin directory. It succeeds
    /// exactly when both archive layers accept their input.
    pub fn extract_plugin(&self, data: &[u8]) -> (r: Result<
        Vec<(String, Vec<u8>, Option<String>)>,
        InstallError,
    >)
        ensures
            r is Ok <==> archive::gunzip_ok(data@) && archive::tar_ok(archive::gunzip_of(data@)),
            match r {
                Ok(v) => v.deep_view() == plugin_files_of(
                    archive::tar_entries_of(archive::gunzip_of(data@)),
                ),
                Err(e) => e is ArchiveExtraction,
            },
    {
        let entries = match archive::read_tar_gz(data) {
            Some(v) => v,
            None => {
                let mut m = String::new();
                m.append("failed to decompress or read the plugin archive");
                return Err(InstallError::ArchiveExtraction(m));
            },
        };
        let ghost views = archive::entry_views(entries@);
        let mut out: Vec<(String, Vec<u8>, Option<String>)> = Vec::new();
        let mut i: usize = 0;
        proof {
            assert(views.skip(0) =~= views);
        }
        while i < entries.len()
            invariant
                i <= entries@.len(),
                views == archive::entry_views(entries@),
                plugin_files_of(views) =~= out.deep_view() + plugin_files_of(
                    views.skip(i as int),
                ),
            decreases entries@.len() - i,
        {
            let ghost prev_out = out.deep_view();
            let e = &entries[i];
            let is_lib = archive::has_extension(e.path.as_str(), "so") || archive::has_extension(
                e.path.as_str(),
                "dll",
            ) || archive::has_extension(e.path.as_str(), "dylib");
            if is_lib {
                if e.is_file {
                    let name = archive::basename(e.path.as_str());
                    let ghost nv = name@;
                    let contents = vstd::slice::slice_to_vec(e.data.as_slice());
                    let ghost cv = contents@;
                    out.push((name, contents, None));
                    proof {
                        assert(out.deep_view() =~~= prev_out + seq![
                            (nv, cv, Option::<Seq<char>>::None),
                        ]);
                    }
                } else {
                    match &e.link_target {
                        Some(target) => {
                            let name = archive::basename(e.path.as_str());
                            let ghost nv = name@;
                            let ghost tv = target@;
                            let contents = vstd::slice::slice_to_vec(e.data.as_slice());
                            let ghost cv = contents@;
                            out.push((name, contents, Some(target.clone())));
                            proof {
                                assert(out.deep_view() =~~= prev_out + seq![(nv, cv, Some(tv))]);
                            }
                        },
                        None => {},
                    }
                }
            }
            proof {
                let ev = views[i as int];
                assert(views.skip(i as int).drop_first() =~= views.skip(i + 1));
                assert(views.skip(i as int)[0] == ev);
                assert(is_lib == is_plugin_lib(ev.0));
                assert(ev.2 == e.is_file);
                assert(ev.3 is Some <==> e.link_target is Some);
            }
            i = i + 1;
        }
        proof {
            assert(views.skip(entries@.len() as int) =~= Seq::empty());
        }
        Ok(out)
    }

    /// The on-disk library file name this plugin name maps to on the
    /// current platform. The mapping is a pure function of the name and
    /// the platform.
    pub fn plugin_library_name(&self, plugin_name: &str) -> (r: String)
        ensures
            r@ == plugin_library_name_spec(plugin_name@, self.platform.os),
    {
        let ext: &str = match &self.platform.os {
            OS::Linux(_) => ".so",
            OS::Darwin => ".dylib",
            OS::Windows => ".dll",
        };
        let mut r = String::new();
        if strutil::starts_with_str(plugin_name, "wasi-nn-") {
            r.append("libwasmedgePluginWasiNN");
        } else if strutil::starts_with_str(plugin_name, "wasi-crypto") {
            r.append("libwasmedgePluginWasiCrypto");
        } else if strutil::starts_with_str(plugin_name, "wasmedge-") {
            r.append("libwasmedgePlugin");
            proof {
                reveal_strlit("wasmedge-");
            }
            let n = plugin_name.unicode_len();
            let rest = plugin_name.substring_char(9, n);
            proof {
                assert(plugin_name@.subrange(9, plugin_name@.len() as int) =~= plugin_name@.skip(
                    9,
                ));
            }
            let parts = split_str(rest, '-');
            let ghost pv = parts.deep_view();
            let mut j: usize = 0;
            let mut titled = String::new();
            proof {
                assert(pv.take(0) =~= Seq::<Seq<char>>::empty());
            }
            while j < parts.len()
                invariant
                    j <= parts@.len(),
                    pv == parts.deep_view(),
                    titled@ == title_concat(pv.take(j as int)),
                decreases parts@.len() - j,
            {
                let part = &parts[j];
                let m = part.as_str().unicode_len();
                if m > 0 {
                    let c = part.as_str().get_char(0);
                    titled.push(strutil::to_upper_char(c));
                    let tail = part.as_str().substring_char(1, m);
                    proof {
                        assert(part@.subrange(1, part@.len() as int) =~= part@.skip(1));
                    }
                    titled.append(tail);
                }
                proof {
                    lemma_title_concat_snoc(pv, j as int);
                    assert(pv[j as int] == part@);
                    assert(titled@ =~= title_concat(pv.take(j as int)) + title_of(pv[j as int]));
                }
                j = j + 1;
            }
            proof {
                assert(pv.take(parts@.len() as int) =~= pv);
            }
            r.append(titled.as_str());
        } else {
            r.append("libwasmedgePlugin");
            r.append(plugin_name);
        }
        r.append(ext);
        r
    }

    /// The installed library files to delete for a plugin: the directory
    /// entries that equal the plugin's library file name, in directory
    /// order; where none matches, the plugin is not installed and that is
    /// an error naming it.
    pub fn remove_plugin(&self, plugin_name: &str, dir_entries: &Vec<String>) -> (r: Result<
        Vec<String>,
        PluginError,
    >)
        ensures
            ({
                let matched = matching_files(
                    dir_entries.deep_view(),
                    plugin_library_name_spec(plugin_name@, self.platform.os),
                );
                match r {
                    Ok(v) => v.deep_view() == matched && matched.len() > 0,
                    Err(PluginError::NotInstalled { plugin }) => plugin@ == plugin_name@
                        && matched.len() == 0,
                    Err(_) => false,
                }
            }),
    {
        let lib = self.plugin_library_name(plugin_name);
        let ghost views = dir_entries.deep_view();
        let mut out: Vec<String> = Vec::new();
        let mut i: usize = 0;
        proof {
            assert(views.skip(0) =~= views);
        }
        while i < dir_entries.len()
            invariant
                i <= dir_entries@.len(),
                views == dir_entries.deep_view(),
                lib@ == plugin_library_name_spec(plugin_name@, self.platform.os),
                matching_files(views, lib@) =~~= out.deep_view() + matching_files(
                    views.skip(i as int),
                    lib@,
                ),
            decreases dir_entries@.len() - i,
        {
            let ghost prev_out = out.deep_view();
            proof {
                assert(views.skip(i as int).drop_first() =~= views.skip(i + 1));
                assert(views.skip(i as int)[0] == views[i as int]);
            }
            if strutil::str_eq(dir_entries[i].as_str(), lib.as_str()) {
                let ghost ev = views[i as int];
                out.push(dir_entries[i].clone());
                proof {
                    assert(out.deep_view() =~~= prev_out + seq![ev]);
                }
            }
            i = i + 1;
        }
        proof {
            assert(views.skip(dir_entries@.len() as int) =~= Seq::empty());
        }
        if out.len() == 0 {
            proof {
                assert(matching_files(views, lib@).len() == 0);
            }
            Err(PluginError::NotInstalled { plugin: plugin_name.to_owned() })
        } else {
            Ok(out)
        }
    }
}

} // verus!
