//! Selecting the files an archive must carry. For each file covered by the
//! remote checksum map, the local digest is compared to the remote one: a
//! mismatch, or remote absence, marks the file for inclusion. An empty
//! selection means "no changes" and the upload phase skips the package.
//! Building the compressed archive itself is file I/O and stays with the
//! surrounding program; it must contain exactly the selected files.

use vstd::prelude::*;
use vstd::string::*;
use crate::checksum::{ChecksumMap, opt_str_view};
use crate::strutil::{replace_char, replace_char_str};

verus! {

/// Whether a file needs upload: its remote digest is absent, or differs
/// from the local digest.
pub open spec fn is_changed(remote: Option<Seq<char>>, local: Seq<char>) -> bool {
    match remote {
        None => true,
        Some(d) => d != local,
    }
}

/// The files needing upload, in map order: those whose remote digest is
/// absent or differs from the local digest.
pub open spec fn changed_files(
    files: Seq<Seq<char>>,
    remote: Seq<Option<Seq<char>>>,
    local: Seq<Seq<char>>,
) -> Seq<Seq<char>>
    decreases files.len(),
{
    if files.len() == 0 {
        Seq::<Seq<char>>::empty()
    } else {
        let rest = changed_files(files.drop_first(), remote.drop_first(), local.drop_first());
        if is_changed(remote[0], local[0]) {
            seq![files[0]] + rest
        } else {
            rest
        }
    }
}

/// Appending one file to all three columns appends its name to the
/// selection exactly when it counts as changed.
pub proof fn lemma_changed_files_push(
    files: Seq<Seq<char>>,
    remote: Seq<Option<Seq<char>>>,
    local: Seq<Seq<char>>,
    f: Seq<char>,
    r: Option<Seq<char>>,
    l: Seq<char>,
)
    requires
        files.len() == remote.len() == local.len(),
    ensures
        changed_files(files.push(f), remote.push(r), local.push(l)) == changed_files(
            files,
            remote,
            local,
        ) + (if is_changed(r, l) {
            seq![f]
        } else {
            Seq::<Seq<char>>::empty()
        }),
    decreases files.len(),
{
    let tail = (if is_changed(r, l) {
        seq![f]
    } else {
        Seq::<Seq<char>>::empty()
    });
    if files.len() == 0 {
        assert(files.push(f).drop_first() =~= files);
        assert(remote.push(r).drop_first() =~= remote);
        assert(local.push(l).drop_first() =~= local);
        assert(changed_files(files.push(f), remote.push(r), local.push(l)) =~= changed_files(
            files,
            remote,
            local,
        ) + tail);
    } else {
        assert(files.push(f).drop_first() =~= files.drop_first().push(f));
        assert(remote.push(r).drop_first() =~= remote.drop_first().push(r));
        assert(local.push(l).drop_first() =~= local.drop_first().push(l));
        lemma_changed_files_push(
            files.drop_first(),
            remote.drop_first(),
            local.drop_first(),
            f,
            r,
            l,
        );
        assert(changed_files(files.push(f), remote.push(r), local.push(l)) =~= changed_files(
            files,
            remote,
            local,
        ) + tail);
    }
}

/// When every file's remote digest matches its local digest — the remote
/// copy is unchanged — the selection is empty, so a second diff run right
/// after a completed deployment uploads nothing.
pub proof fn lemma_unchanged_remote_yields_empty_diff(
    files: Seq<Seq<char>>,
    remote: Seq<Option<Seq<char>>>,
    local: Seq<Seq<char>>,
)
    requires
        files.len() == remote.len() == local.len(),
        forall|i: int| 0 <= i < files.len() ==> remote[i] == Some(#[trigger] local[i]),
    ensures
        changed_files(files, remote, local) == Seq::<Seq<char>>::empty(),
    decreases files.len(),
{
    if files.len() > 0 {
        assert(remote[0] == Some(local[0]));
        assert(forall|i: int|
            0 <= i < files.drop_first().len() ==> remote.drop_first()[i] == Some(
                #[trigger] local.drop_first()[i],
            ));
        lemma_unchanged_remote_yields_empty_diff(
            files.drop_first(),
            remote.drop_first(),
            local.drop_first(),
        );
    }
}

/// Builds one package's upload from its remote checksum map: decides which
/// files changed. The caller computes each covered file's local digest with
/// the same algorithm the remote command uses, and archives exactly the
/// selected files.
pub struct PackageCreator<'a> {
    server_hash_map: &'a ChecksumMap,
}

impl<'a> PackageCreator<'a> {
    /// The remote digest map this creator diffs against.
    pub closed spec fn server_hashes(&self) -> &'a ChecksumMap {
        self.server_hash_map
    }

    pub fn new(server_hashes: &'a ChecksumMap) -> (r: PackageCreator<'a>)
        ensures
            r.server_hashes() == server_hashes,
    {
        PackageCreator { server_hash_map: server_hashes }
    }

    /// Selects the files whose content must go into this package's archive:
    /// `local_digests[i]` is the local digest of the map's file `i`, and
    /// file `i` is selected exactly when its remote digest is absent or
    /// different. An empty result means the package has no changes and its
    /// upload is skipped.
    pub fn prepare_package_for_target(&self, local_digests: &Vec<String>) -> (changed: Vec<
        String,
    >)
        requires
            self.server_hashes().wf(),
            local_digests@.len() == self.server_hashes().files@.len(),
        ensures
            changed@.map_values(|p: String| p@) == changed_files(
                self.server_hashes().files@.map_values(|p: String| p@),
                self.server_hashes().digests@.map_values(|o: Option<String>| opt_str_view(o)),
                local_digests@.map_values(|p: String| p@),
            ),
    {
        let map = self.server_hash_map;
        let ghost fviews = map.files@.map_values(|p: String| p@);
        let ghost rviews = map.digests@.map_values(|o: Option<String>| opt_str_view(o));
        let ghost lviews = local_digests@.map_values(|p: String| p@);
        let mut changed: Vec<String> = Vec::new();
        let mut i: usize = 0;
        proof {
            assert(fviews.take(0) =~= Seq::<Seq<char>>::empty());
            assert(changed@.map_values(|p: String| p@) =~= changed_files(
                fviews.take(0),
                rviews.take(0),
                lviews.take(0),
            ));
        }
        while i < map.files.len()
            invariant
                i <= map.files@.len(),
                map.wf(),
                local_digests@.len() == map.files@.len(),
                fviews == map.files@.map_values(|p: String| p@),
                rviews == map.digests@.map_values(|o: Option<String>| opt_str_view(o)),
                lviews == local_digests@.map_values(|p: String| p@),
                changed@.map_values(|p: String| p@) == changed_files(
                    fviews.take(i as int),
                    rviews.take(i as int),
                    lviews.take(i as int),
                ),
            decreases map.files@.len() - i,
        {
            let needs_upload = match &map.digests[i] {
                None => true,
                Some(d) => !d.eq(&local_digests[i]),
            };
            proof {
                assert(rviews[i as int] == opt_str_view(map.digests@[i as int]));
                assert(fviews[i as int] == map.files@[i as int]@);
                assert(lviews[i as int] == local_digests@[i as int]@);
                assert(needs_upload == is_changed(rviews[i as int], lviews[i as int]));
            }
            let ghost before = changed@;
            if needs_upload {
                changed.push(map.files[i].clone());
            }
            i = i + 1;
            proof {
                assert(fviews.take(i as int) =~= fviews.take(i as int - 1).push(
                    fviews[i as int - 1],
                ));
                assert(rviews.take(i as int) =~= rviews.take(i as int - 1).push(
                    rviews[i as int - 1],
                ));
                assert(lviews.take(i as int) =~= lviews.take(i as int - 1).push(
                    lviews[i as int - 1],
                ));
                lemma_changed_files_push(
                    fviews.take(i as int - 1),
                    rviews.take(i as int - 1),
                    lviews.take(i as int - 1),
                    fviews[i as int - 1],
                    rviews[i as int - 1],
                    lviews[i as int - 1],
                );
                if is_changed(rviews[i as int - 1], lviews[i as int - 1]) {
                    assert(changed@.map_values(|p: String| p@) =~= before.map_values(
                        |p: String| p@,
                    ).push(fviews[i as int - 1]));
                    assert(before.map_values(|p: String| p@).push(fviews[i as int - 1])
                        =~= before.map_values(|p: String| p@) + seq![fviews[i as int - 1]]);
                } else {
                    assert(changed_files(
                        fviews.take(i as int - 1),
                        rviews.take(i as int - 1),
                        lviews.take(i as int - 1),
                    ) + Seq::<Seq<char>>::empty() =~= changed_files(
                        fviews.take(i as int - 1),
                        rviews.take(i as int - 1),
                        lviews.take(i as int - 1),
                    ));
                }
            }
        }
        proof {
            assert(fviews.take(fviews.len() as int) =~= fviews);
            assert(rviews.take(rviews.len() as int) =~= rviews);
            assert(lviews.take(lviews.len() as int) =~= lviews);
        }
        changed
    }

    /// Normalizes enumerated file paths into the names the engine tracks,
    /// appending one name per entry: the canonical local directory prefix
    /// is stripped, a leading backslash is dropped, and backslash
    /// separators become the canonical forward slash.
    pub fn collect_files_ext(local_dir: String, entry_paths: &Vec<String>, files: &mut Vec<
        String,
    >)
        ensures
            final(files)@.map_values(|p: String| p@) == old(files)@.map_values(|p: String| p@)
                + entry_paths@.map_values(|p: String| p@).map_values(
                |p: Seq<char>| normalize_entry(local_dir@, p),
            ),
    {
        PackageCreator::collect_files(&local_dir, entry_paths, files);
    }

    /// Appends the normalized relative name of every enumerated entry, in
    /// order.
    pub fn collect_files(local_dir: &String, entry_paths: &Vec<String>, files: &mut Vec<String>)
        ensures
            final(files)@.map_values(|p: String| p@) == old(files)@.map_values(|p: String| p@)
                + entry_paths@.map_values(|p: String| p@).map_values(
                |p: Seq<char>| normalize_entry(local_dir@, p),
            ),
    {
        let ghost nviews = entry_paths@.map_values(|p: String| p@).map_values(
            |p: Seq<char>| normalize_entry(local_dir@, p),
        );
        let mut i: usize = 0;
        proof {
            assert(files@.map_values(|p: String| p@) =~= old(files)@.map_values(|p: String| p@)
                + nviews.take(0));
        }
        while i < entry_paths.len()
            invariant
                i <= entry_paths@.len(),
                nviews == entry_paths@.map_values(|p: String| p@).map_values(
                    |p: Seq<char>| normalize_entry(local_dir@, p),
                ),
                files@.map_values(|p: String| p@) == old(files)@.map_values(|p: String| p@)
                    + nviews.take(i as int),
            decreases entry_paths@.len() - i,
        {
            let name = normalize_path(local_dir, &entry_paths[i]);
            let ghost before = files@;
            files.push(name);
            i = i + 1;
            proof {
                assert(entry_paths@.map_values(|p: String| p@)[i as int - 1]
                    == entry_paths@[i as int - 1]@);
                assert(nviews[i as int - 1] == normalize_entry(
                    local_dir@,
                    entry_paths@[i as int - 1]@,
                ));
                assert(files@.map_values(|p: String| p@) =~= before.map_values(
                    |p: String| p@,
                ).push(nviews[i as int - 1]));
                assert(nviews.take(i as int) =~= nviews.take(i as int - 1).push(
                    nviews[i as int - 1],
                ));
                assert((old(files)@.map_values(|p: String| p@) + nviews.take(i as int - 1)).push(
                    nviews[i as int - 1],
                ) =~= old(files)@.map_values(|p: String| p@) + nviews.take(i as int));
            }
        }
        proof {
            assert(nviews.take(nviews.len() as int) =~= nviews);
        }
    }
}

/// The name a locally enumerated file is tracked under: the local directory
/// prefix stripped, one leading backslash dropped, and every backslash
/// separator replaced by a forward slash.
pub open spec fn normalize_entry(local_dir: Seq<char>, full: Seq<char>) -> Seq<char> {
    let stripped = if full.len() >= local_dir.len() && full.take(local_dir.len() as int)
        == local_dir {
        full.skip(local_dir.len() as int)
    } else {
        full
    };
    let unslashed = if stripped.len() > 0 && stripped[0] == '\\' {
        stripped.drop_first()
    } else {
        stripped
    };
    replace_char(unslashed, '\\', '/')
}

/// Normalizes one enumerated path as `normalize_entry` describes.
pub fn normalize_path(local_dir: &String, full: &String) -> (r: String)
    ensures
        r@ == normalize_entry(local_dir@, full@),
{
    let s = full.as_str();
    let n = s.unicode_len();
    let plen = local_dir.as_str().unicode_len();
    let stripped: &str = if n >= plen {
        let head = s.substring_char(0, plen);
        if head.to_owned().eq(local_dir) {
            s.substring_char(plen, n)
        } else {
            s
        }
    } else {
        s
    };
    let sn = stripped.unicode_len();
    let unslashed: &str = if sn > 0 && stripped.get_char(0) == '\\' {
        stripped.substring_char(1, sn)
    } else {
        stripped
    };
    proof {
        assert(unslashed@ =~= ({
            let st = if full@.len() >= local_dir@.len() && full@.take(local_dir@.len() as int)
                == local_dir@ {
                full@.skip(local_dir@.len() as int)
            } else {
                full@
            };
            if st.len() > 0 && st[0] == '\\' {
                st.drop_first()
            } else {
                st
            }
        }));
    }
    replace_char_str(unslashed, '\\', '/')
}

} // verus!
