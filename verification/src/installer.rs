//! Runtime installation planning: the download URL and archive location for
//! a version, the install tree's layout, the redistribution of extracted
//! archive entries into that tree, and the environment script. The file
//! system work itself is the caller's; every name, destination and byte it
//! writes is decided and verified here.

use vstd::prelude::*;

use crate::archive;
use crate::platform::{arch_display, os_display, platform_token, Platform, OS};
use crate::strutil;
use crate::strutil::starts_with;

verus! {

/// Errors of the install layer.
#[derive(Debug, Clone, PartialEq, Eq)]
pub enum InstallError {
    /// The downloaded archive could not be decompressed or read.
    ArchiveExtraction(String),
    /// A file-system operation failed; carries a description.
    Filesystem(String),
}

/// The environment script to be written at the root of the install tree.
pub struct EnvScript {
    pub path: String,
    pub contents: String,
    pub executable: bool,
}

/// The canonical download URL of a runtime release artifact.
pub open spec fn runtime_download_url_spec(p: Platform, version: Seq<char>) -> Seq<char> {
    "https://github.com/WasmEdge/WasmEdge/releases/download/"@ + version + "/WasmEdge-"@
        + version + "-"@ + platform_token(p) + ".tar.gz"@
}

/// The root directory name the release archive extracts to.
pub open spec fn extracted_root_spec(p: Platform, version: Seq<char>) -> Seq<char> {
    "WasmEdge-"@ + version + "-"@ + os_display(p.os) + "-"@ + arch_display(p.arch)
}

/// Where an extracted entry belongs in the install tree, if anywhere:
/// entries under the root's `bin` and `include` go to the like-named
/// directories, and entries under `lib64`, where that directory is present,
/// else under `lib`, go to `lib`.
pub open spec fn dest_of(
    path: Seq<char>,
    root: Seq<char>,
    install: Seq<char>,
    use_lib64: bool,
) -> Option<Seq<char>> {
    let bin_pre = root + "/bin/"@;
    let lib64_pre = root + "/lib64/"@;
    let lib_pre = root + "/lib/"@;
    let inc_pre = root + "/include/"@;
    if starts_with(path, bin_pre) {
        Some(install + "/bin/"@ + path.skip(bin_pre.len() as int))
    } else if use_lib64 && starts_with(path, lib64_pre) {
        Some(install + "/lib/"@ + path.skip(lib64_pre.len() as int))
    } else if !use_lib64 && starts_with(path, lib_pre) {
        Some(install + "/lib/"@ + path.skip(lib_pre.len() as int))
    } else if starts_with(path, inc_pre) {
        Some(install + "/include/"@ + path.skip(inc_pre.len() as int))
    } else {
        None
    }
}

/// Whether the archive carries a `lib64` directory under the root.
pub open spec fn lib64_present(
    entries: Seq<(Seq<char>, Seq<u8>, bool, Option<Seq<char>>)>,
    root: Seq<char>,
) -> bool {
    exists|k: int|
        0 <= k < entries.len() && starts_with(#[trigger] entries[k].0, root + "/lib64/"@)
}

/// The entries to place into the install tree: every regular file and every
/// link with a destination, as (destination path, contents, link target), in
/// archive order. Directory entries carry no content and contribute nothing.
pub open spec fn planned_moves(
    entries: Seq<(Seq<char>, Seq<u8>, bool, Option<Seq<char>>)>,
    root: Seq<char>,
    install: Seq<char>,
    use_lib64: bool,
) -> Seq<(Seq<char>, Seq<u8>, Option<Seq<char>>)>
    decreases entries.len(),
{
    if entries.len() == 0 {
        Seq::empty()
    } else {
        let e = entries[0];
        let rest = planned_moves(entries.drop_first(), root, install, use_lib64);
        match dest_of(e.0, root, install, use_lib64) {
            Some(d) => if e.2 {
                seq![(d, e.1, Option::<Seq<char>>::None)] + rest
            } else if e.3 is Some {
                seq![(d, e.1, e.3)] + rest
            } else {
                rest
            },
            None => rest,
        }
    }
}

/// The contents of the environment script for a platform: a POSIX shell
/// script exporting `PATH` and the loader path on Linux and Darwin, a batch
/// script setting `PATH` on Windows.
pub open spec fn env_script_spec(os: OS, install: Seq<char>) -> Seq<char> {
    match os {
        OS::Linux(_) => "#!/bin/sh\nexport PATH="@ + install + "/bin:$PATH\nexport LD_LIBRARY_PATH="@
            + install + "/lib:$LD_LIBRARY_PATH\n"@,
        OS::Darwin => "#!/bin/sh\nexport PATH="@ + install + "/bin:$PATH\nexport DYLD_LIBRARY_PATH="@
            + install + "/lib:$DYLD_LIBRARY_PATH\n"@,
        OS::Windows => "@echo off\nset PATH="@ + install + "\\bin;%PATH%\n"@,
    }
}

/// Expansion of a leading tilde against a home directory: a path beginning
/// with `~/` continues the home directory; any other path beginning with
/// `~` is joined to it whole; other paths are kept as given.
pub open spec fn expanded_path(path: Seq<char>, home: Seq<char>) -> Seq<char> {
    if path.len() > 0 && path[0] == '~' {
        if starts_with(path, "~/"@) {
            home + "/"@ + path.skip(2)
        } else {
            home + "/"@ + path
        }
    } else {
        path
    }
}

/// Expands a leading tilde against the home directory.
pub fn expand_path(path: &str, home: &str) -> (r: String)
    ensures
        r@ == expanded_path(path@, home@),
{
    let n = path.unicode_len();
    if n > 0 && path.get_char(0) == '~' {
        let mut r = home.to_owned();
        r.append("/");
        if strutil::starts_with_str(path, "~/") {
            proof {
                reveal_strlit("~/");
            }
            let rest = path.substring_char(2, n);
            proof {
                assert(path@.subrange(2, path@.len() as int) =~= path@.skip(2));
            }
            r.append(rest);
        } else {
            r.append(path);
        }
        r
    } else {
        path.to_owned()
    }
}

/// Scopes one runtime installation: where it goes, where downloads are
/// staged, and for which platform.
pub struct Installer {
    pub install_path: String,
    pub temp_dir: String,
    pub platform: Platform,
}

impl Installer {
    pub fn new(install_path: String, temp_dir: String, platform: Platform) -> (s: Installer)
        ensures
            s.install_path == install_path,
            s.temp_dir == temp_dir,
            s.platform == platform,
    {
        Installer { install_path, temp_dir, platform }
    }

    /// The subdirectories of the install tree, to be created before any
    /// file is placed.
    pub fn install_dirs(&self) -> (r: Vec<String>)
        ensures
            r.deep_view() =~= seq![
                self.install_path@ + "/bin"@,
                self.install_path@ + "/lib"@,
                self.install_path@ + "/include"@,
                self.install_path@ + "/plugin"@,
            ],
    {
        let mut r: Vec<String> = Vec::new();
        let mut d = self.install_path.clone();
        d.append("/bin");
        r.push(d);
        let mut d = self.install_path.clone();
        d.append("/lib");
        r.push(d);
        let mut d = self.install_path.clone();
        d.append("/include");
        r.push(d);
        let mut d = self.install_path.clone();
        d.append("/plugin");
        r.push(d);
        r
    }

    /// The canonical download URL of the release artifact for a version.
    pub fn runtime_download_url(&self, version: &str) -> (r: String)
        ensures
            r@ == runtime_download_url_spec(self.platform, version@),
    {
        let mut r = String::new();
        r.append("https://github.com/WasmEdge/WasmEdge/releases/download/");
        r.append(version);
        r.append("/WasmEdge-");
        r.append(version);
        r.append("-");
        let pkg = self.platform.get_release_package_name(version);
        r.append(pkg.as_str());
        r
    }

    /// Where the downloaded archive is staged inside the temp directory.
    pub fn archive_path(&self, version: &str) -> (r: String)
        ensures
            r@ == self.temp_dir@ + "/wasmedge-"@ + version@ + ".tar.gz"@,
    {
        let mut r = self.temp_dir.clone();
        r.append("/wasmedge-");
        r.append(version);
        r.append(".tar.gz");
        r
    }

    /// The root directory name the release archive extracts to.
    pub fn extracted_root(&self, version: &str) -> (r: String)
        ensures
            r@ == extracted_root_spec(self.platform, version@),
    {
        let mut r = String::new();
        r.append("WasmEdge-");
        r.append(version);
        r.append("-");
        r.append(self.platform.os.name());
        r.append("-");
        r.append(self.platform.arch.name());
        r
    }

    /// Reads the downloaded archive and decides the placement of its
    /// contents: every regular file and every link under the extracted
    /// root's `bin`, `lib64`-else-`lib`, and `include` subtrees, with its
    /// destination in the install tree and, for a link, the path it is to
    /// point to. Directory entries contribute nothing. It succeeds exactly
    /// when both archive layers accept their input.
    pub fn extract_archive(&self, data: &[u8], version: &str) -> (r: Result<
        Vec<(String, Vec<u8>, Option<String>)>,
        InstallError,
    >)
        ensures
            r is Ok <==> archive::gunzip_ok(data@) && archive::tar_ok(archive::gunzip_of(data@)),
            match r {
                Ok(v) => {
                    let entries = archive::tar_entries_of(archive::gunzip_of(data@));
                    let root = extracted_root_spec(self.platform, version@);
                    v.deep_view() == planned_moves(
                        entries,
                        root,
                        self.install_path@,
                        lib64_present(entries, root),
                    )
                },
                Err(e) => e is ArchiveExtraction,
            },
    {
        let entries = match archive::read_tar_gz(data) {
            Some(v) => v,
            None => {
                let mut m = String::new();
                m.append("failed to decompress or read the release archive");
                return Err(InstallError::ArchiveExtraction(m));
            },
        };
        let root = self.extracted_root(version);
        let ghost views = archive::entry_views(entries@);

        let mut lib64_pre = root.clone();
        lib64_pre.append("/lib64/");

        // First pass: is a lib64 directory present under the root?
        let mut use_lib64 = false;
        let mut i: usize = 0;
        while i < entries.len()
            invariant
                i <= entries@.len(),
                views == archive::entry_views(entries@),
                lib64_pre@ == extracted_root_spec(self.platform, version@) + "/lib64/"@,
                use_lib64 == exists|k: int|
                    0 <= k < i && starts_with(#[trigger] views[k].0, lib64_pre@),
            decreases entries@.len() - i,
        {
            if strutil::starts_with_str(entries[i].path.as_str(), lib64_pre.as_str()) {
                use_lib64 = true;
                proof {
                    assert(starts_with(views[i as int].0, lib64_pre@));
                }
            }
            i = i + 1;
        }
        proof {
            assert(use_lib64 == lib64_present(views, extracted_root_spec(self.platform, version@)));
        }

        let mut bin_pre = root.clone();
        bin_pre.append("/bin/");
        let mut lib_pre = root.clone();
        lib_pre.append("/lib/");
        let mut inc_pre = root.clone();
        inc_pre.append("/include/");

        let ghost rootv = extracted_root_spec(self.platform, version@);
        let mut out: Vec<(String, Vec<u8>, Option<String>)> = Vec::new();
        let mut i: usize = 0;
        proof {
            assert(views.skip(0) =~= views);
        }
        while i < entries.len()
            invariant
                i <= entries@.len(),
                views == archive::entry_views(entries@),
                rootv == extracted_root_spec(self.platform, version@),
                bin_pre@ == rootv + "/bin/"@,
                lib64_pre@ == rootv + "/lib64/"@,
                lib_pre@ == rootv + "/lib/"@,
                inc_pre@ == rootv + "/include/"@,
                use_lib64 == lib64_present(views, rootv),
                planned_moves(views, rootv, self.install_path@, use_lib64) =~= out.deep_view()
                    + planned_moves(views.skip(i as int), rootv, self.install_path@, use_lib64),
            decreases entries@.len() - i,
        {
            let ghost prev_out = out.deep_view();
            let entry_path = &entries[i].path;
            let dest: Option<String> = if strutil::starts_with_str(
                entry_path.as_str(),
                bin_pre.as_str(),
            ) {
                Some(self.rebase(entry_path, bin_pre.unicode_len(), "/bin/"))
            } else if use_lib64 && strutil::starts_with_str(
                entry_path.as_str(),
                lib64_pre.as_str(),
            ) {
                Some(self.rebase(entry_path, lib64_pre.unicode_len(), "/lib/"))
            } else if !use_lib64 && strutil::starts_with_str(
                entry_path.as_str(),
                lib_pre.as_str(),
            ) {
                Some(self.rebase(entry_path, lib_pre.unicode_len(), "/lib/"))
            } else if strutil::starts_with_str(entry_path.as_str(), inc_pre.as_str()) {
                Some(self.rebase(entry_path, inc_pre.unicode_len(), "/include/"))
            } else {
                None
            };
            let ghost dest_view: Option<Seq<char>> = match &dest {
                Some(d) => Some(d@),
                None => None,
            };
            match dest {
                Some(d) => {
                    if entries[i].is_file {
                        let ghost dv = d@;
                        let contents = vstd::slice::slice_to_vec(entries[i].data.as_slice());
                        let ghost cv = contents@;
                        out.push((d, contents, None));
                        proof {
                            assert(out.deep_view() =~~= prev_out + seq![
                                (dv, cv, Option::<Seq<char>>::None),
                            ]);
                        }
                    } else {
                        match &entries[i].link_target {
                            Some(target) => {
                                let ghost dv = d@;
                                let ghost tv = target@;
                                let contents = vstd::slice::slice_to_vec(
                                    entries[i].data.as_slice(),
                                );
                                let ghost cv = contents@;
                                out.push((d, contents, Some(target.clone())));
                                proof {
                                    assert(out.deep_view() =~~= prev_out + seq![
                                        (dv, cv, Some(tv)),
                                    ]);
                                }
                            },
                            None => {},
                        }
                    }
                },
                None => {},
            }
            proof {
                let e = views[i as int];
                assert(views.skip(i as int).drop_first() =~= views.skip(i + 1));
                assert(views.skip(i as int)[0] == e);
                assert(dest_view == dest_of(e.0, rootv, self.install_path@, use_lib64));
                assert(e.2 == entries@[i as int].is_file);
                assert(e.3 is Some <==> entries@[i as int].link_target is Some);
                assert(planned_moves(views.skip(i as int), rootv, self.install_path@, use_lib64)
                    == match dest_of(e.0, rootv, self.install_path@, use_lib64) {
                    Some(d) => if e.2 {
                        seq![(d, e.1, Option::<Seq<char>>::None)] + planned_moves(
                            views.skip(i + 1),
                            rootv,
                            self.install_path@,
                            use_lib64,
                        )
                    } else if e.3 is Some {
                        seq![(d, e.1, e.3)] + planned_moves(
                            views.skip(i + 1),
                            rootv,
                            self.install_path@,
                            use_lib64,
                        )
                    } else {
                        planned_moves(views.skip(i + 1), rootv, self.install_path@, use_lib64)
                    },
                    None => planned_moves(views.skip(i + 1), rootv, self.install_path@, use_lib64),
                });
            }
            i = i + 1;
        }
        proof {
            assert(views.skip(entries@.len() as int) =~= Seq::empty());
        }
        Ok(out)
    }

    /// The destination of one entry: the install path, the target
    /// subdirectory, then everything of the entry's path past the matched
    /// prefix.
    fn rebase(&self, path: &String, prefix_len: usize, sub: &str) -> (r: String)
        requires
            prefix_len <= path@.len(),
        ensures
            r@ == self.install_path@ + sub@ + path@.skip(prefix_len as int),
    {
        let mut r = self.install_path.clone();
        r.append(sub);
        let n = path.as_str().unicode_len();
        let rest = path.as_str().substring_char(prefix_len, n);
        proof {
            assert(path@.subrange(prefix_len as int, path@.len() as int) =~= path@.skip(
                prefix_len as int,
            ));
        }
        r.append(rest);
        r
    }

    /// What removal does: where the install tree exists, it is deleted
    /// whole, and the result names it; where it does not, removal succeeds
    /// as a no-op and nothing is to be deleted.
    pub fn remove_runtime(&self, install_path_exists: bool) -> (r: Option<String>)
        ensures
            match r {
                Some(p) => install_path_exists && p@ == self.install_path@,
                None => !install_path_exists,
            },
    {
        if install_path_exists {
            Some(self.install_path.clone())
        } else {
            None
        }
    }

    /// The environment script for this installation: its location at the
    /// install root, its platform-specific contents, and whether it is to
    /// be marked executable (it is, except on Windows).
    pub fn setup_environment(&self) -> (r: EnvScript)
        ensures
            r.path@ == self.install_path@ + "/env"@,
            r.contents@ == env_script_spec(self.platform.os, self.install_path@),
            r.executable == !(self.platform.os is Windows),
    {
        let mut path = self.install_path.clone();
        path.append("/env");
        let mut c = String::new();
        let executable: bool;
        match &self.platform.os {
            OS::Linux(_) => {
                c.append("#!/bin/sh\nexport PATH=");
                c.append(self.install_path.as_str());
                c.append("/bin:$PATH\nexport LD_LIBRARY_PATH=");
                c.append(self.install_path.as_str());
                c.append("/lib:$LD_LIBRARY_PATH\n");
                executable = true;
            },
            OS::Darwin => {
                c.append("#!/bin/sh\nexport PATH=");
                c.append(self.install_path.as_str());
                c.append("/bin:$PATH\nexport DYLD_LIBRARY_PATH=");
                c.append(self.install_path.as_str());
                c.append("/lib:$DYLD_LIBRARY_PATH\n");
                executable = true;
            },
            OS::Windows => {
                c.append("@echo off\nset PATH=");
                c.append(self.install_path.as_str());
                c.append("\\bin;%PATH%\n");
                executable = false;
            },
        }
        EnvScript { path, contents: c, executable }
    }
}

} // verus!
