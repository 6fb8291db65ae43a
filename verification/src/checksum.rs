//! Remote-checksum-based change detection. The engine enumerates a package's
//! local files, asks the remote host for their checksums in bounded-size
//! batches, and parses the answers into a per-package map of remote digests.
//! Files with no usable remote digest count as absent, which the archiver
//! treats as changed.

use vstd::prelude::*;
use vstd::string::*;
use vstd::seq_lib::*;
use crate::constants::CMD_FILES_LIMIT;
use crate::strutil::{split_all, split_on_char};
use crate::actions::{sudo_prefix, sudo_prefix_str};

verus! {

/// The view of an optional string, for contracts over parsed fields.
pub open spec fn opt_str_view(o: Option<String>) -> Option<Seq<char>> {
    match o {
        Some(s) => Some(s@),
        None => None,
    }
}

/// The remote digest the checksum output reports for file index `i`: the
/// first space-delimited field of output line `i`, or `None` when that line
/// is missing or empty (the file is absent or unreadable remotely).
pub open spec fn digest_at(out: Seq<char>, i: int) -> Option<Seq<char>> {
    let lines = split_all(out, '\n');
    if 0 <= i < lines.len() && lines[i].len() > 0 {
        Some(split_all(lines[i], ' ')[0])
    } else {
        None
    }
}

/// One quoted path argument of the remote checksum command: a space, then
/// the target directory and the relative file path inside double quotes.
pub open spec fn checksum_entry(dir: Seq<char>, file: Seq<char>) -> Seq<char> {
    seq![' ', '"'] + dir + file + seq!['"']
}

/// The argument tail of the remote checksum command for a batch of files,
/// one quoted path per file, in order.
pub open spec fn checksum_args(dir: Seq<char>, files: Seq<Seq<char>>) -> Seq<char>
    decreases files.len(),
{
    if files.len() == 0 {
        Seq::<char>::empty()
    } else {
        checksum_entry(dir, files[0]) + checksum_args(dir, files.drop_first())
    }
}

/// Appending a file to a batch appends its quoted path to the argument
/// tail.
pub proof fn lemma_checksum_args_push(dir: Seq<char>, files: Seq<Seq<char>>, f: Seq<char>)
    ensures
        checksum_args(dir, files.push(f)) == checksum_args(dir, files) + checksum_entry(dir, f),
    decreases files.len(),
{
    if files.len() == 0 {
        assert(files.push(f).drop_first() =~= files);
        assert(files.push(f)[0] == f);
        assert(checksum_args(dir, files.push(f)) =~= checksum_args(dir, files) + checksum_entry(
            dir,
            f,
        ));
    } else {
        assert(files.push(f).drop_first() =~= files.drop_first().push(f));
        assert(files.push(f)[0] == files[0]);
        lemma_checksum_args_push(dir, files.drop_first(), f);
        assert(checksum_args(dir, files.push(f)) =~= checksum_args(dir, files) + checksum_entry(
            dir,
            f,
        ));
    }
}

/// The per-package map of remote digests, keyed positionally: `digests[i]`
/// is the remote digest of `files[i]`, or `None` when the file is absent
/// remotely. Accumulated during the checksum phase and consumed by the
/// upload phase.
pub struct ChecksumMap {
    pub files: Vec<String>,
    pub digests: Vec<Option<String>>,
}

impl ChecksumMap {
    /// Both columns cover the same files.
    pub open spec fn wf(&self) -> bool {
        self.files@.len() == self.digests@.len()
    }

    /// Pairs each enumerated file with the digest parsed for its index.
    pub fn new(files: Vec<String>, digests: Vec<Option<String>>) -> (r: ChecksumMap)
        requires
            files@.len() == digests@.len(),
        ensures
            r.wf(),
            r.files == files,
            r.digests == digests,
    {
        ChecksumMap { files, digests }
    }

    /// An empty map: no files checksummed yet.
    pub fn empty() -> (r: ChecksumMap)
        ensures
            r.wf(),
            r.files@.len() == 0,
            r.digests@.len() == 0,
    {
        ChecksumMap { files: Vec::new(), digests: Vec::new() }
    }

    pub fn len(&self) -> (r: usize)
        requires
            self.wf(),
        ensures
            r == self.files@.len(),
    {
        self.files.len()
    }
}

/// Determines, per package, which local files need upload, by asking the
/// remote host to checksum them in batches of at most `batch_limit` paths.
pub struct ChecksumDiffEngine {
    pub batch_limit: usize,
}

impl ChecksumDiffEngine {
    /// An engine with the default batch bound.
    pub fn new() -> (r: ChecksumDiffEngine)
        ensures
            r.batch_limit == CMD_FILES_LIMIT,
            r.batch_limit >= 1,
    {
        ChecksumDiffEngine { batch_limit: CMD_FILES_LIMIT }
    }

    /// An engine with a caller-chosen batch bound.
    pub fn with_batch_limit(batch_limit: usize) -> (r: ChecksumDiffEngine)
        requires
            batch_limit >= 1,
        ensures
            r.batch_limit == batch_limit,
    {
        ChecksumDiffEngine { batch_limit }
    }

    /// Partitions the file list into consecutive batches: every batch holds
    /// at most `batch_limit` paths, every batch but the last is full, and
    /// the batches in order reproduce the list exactly. `N` paths yield
    /// exactly `ceil(N / batch_limit)` batches.
    pub fn split_into_batches(&self, files: &Vec<String>) -> (r: Vec<Vec<String>>)
        requires
            self.batch_limit >= 1,
        ensures
            r@.len() == (files@.len() + self.batch_limit - 1) / (self.batch_limit as int),
            forall|b: int| 0 <= b < r@.len() ==> #[trigger] r@[b]@.len() <= self.batch_limit,
            forall|b: int|
                0 <= b < r@.len() - 1 ==> #[trigger] r@[b]@.len() == self.batch_limit,
            r@.map_values(|v: Vec<String>| v@).flatten() == files@,
    {
        let ghost bl = self.batch_limit as int;
        let mut r: Vec<Vec<String>> = Vec::new();
        let mut cur: Vec<String> = Vec::new();
        let mut i: usize = 0;
        proof {
            assert(r@.map_values(|v: Vec<String>| v@).flatten() + cur@ =~= files@.take(0));
        }
        while i < files.len()
            invariant
                i <= files@.len(),
                self.batch_limit >= 1,
                cur@.len() < self.batch_limit,
                i == r@.len() * (self.batch_limit as int) + cur@.len(),
                forall|b: int|
                    0 <= b < r@.len() ==> #[trigger] r@[b]@.len() == self.batch_limit,
                r@.map_values(|v: Vec<String>| v@).flatten() + cur@ == files@.take(i as int),
            decreases files@.len() - i,
        {
            let ghost old_r = r@;
            let ghost old_cur = cur@;
            cur.push(files[i].clone());
            i = i + 1;
            proof {
                let fl = old_r.map_values(|v: Vec<String>| v@).flatten();
                assert(fl + old_cur == files@.take(i as int - 1));
                assert(cur@ == old_cur.push(files@[i as int - 1]));
                assert(fl + cur@ =~= (fl + old_cur).push(files@[i as int - 1]));
                assert(files@.take(i as int) =~= files@.take(i as int - 1).push(
                    files@[i as int - 1],
                ));
                assert(old_r.map_values(|v: Vec<String>| v@).flatten() + cur@ =~= files@.take(
                    i as int,
                ));
            }
            if cur.len() == self.batch_limit {
                let full = cur;
                cur = Vec::new();
                let ghost cur_view = full@;
                r.push(full);
                proof {
                    assert(r@.map_values(|v: Vec<String>| v@) =~= old_r.map_values(
                        |v: Vec<String>| v@,
                    ).push(cur_view));
                    old_r.map_values(|v: Vec<String>| v@).lemma_flatten_push(cur_view);
                    assert(r@.map_values(|v: Vec<String>| v@).flatten() + cur@ =~= files@.take(
                        i as int,
                    ));
                    assert((old_r.len() + 1) * (self.batch_limit as int) == old_r.len() * (
                    self.batch_limit as int) + self.batch_limit) by (nonlinear_arith);
                }
            }
        }
        proof {
            assert(files@.take(files@.len() as int) =~= files@);
        }
        if cur.len() > 0 {
            let ghost old_r = r@;
            let ghost cur_view = cur@;
            let ghost n = files@.len() as int;
            r.push(cur);
            proof {
                assert(r@.map_values(|v: Vec<String>| v@) =~= old_r.map_values(
                    |v: Vec<String>| v@,
                ).push(cur_view));
                old_r.map_values(|v: Vec<String>| v@).lemma_flatten_push(cur_view);
                assert(r@.map_values(|v: Vec<String>| v@).flatten() =~= files@);
                assert(n == old_r.len() * bl + cur_view.len());
                assert((n + bl - 1) / bl == old_r.len() + 1) by (nonlinear_arith)
                    requires
                        bl >= 1,
                        0 < cur_view.len() < bl || cur_view.len() == bl,
                        n == old_r.len() * bl + cur_view.len(),
                        old_r.len() >= 0,
                ;
            }
        } else {
            proof {
                let n = files@.len() as int;
                assert(n == r@.len() * bl);
                assert((n + bl - 1) / bl == r@.len()) by (nonlinear_arith)
                    requires
                        bl >= 1,
                        n == r@.len() * bl,
                        r@.len() >= 0,
                ;
            }
        }
        r
    }

    /// The remote checksum command for one batch: the checksum tool's name,
    /// optionally under the privilege-escalation prefix, followed by one
    /// quoted remote path per batched file, the package's target directory
    /// prepended to each.
    pub fn build_checksum_command(
        &self,
        use_sudo: bool,
        target_directory: &String,
        batch: &Vec<String>,
    ) -> (r: String)
        ensures
            r@ == sudo_prefix(use_sudo) + "sha1sum"@ + checksum_args(
                target_directory@,
                batch@.map_values(|p: String| p@),
            ),
    {
        let mut r = sudo_prefix_str(use_sudo);
        r.append("sha1sum");
        let ghost dir = target_directory@;
        let ghost fviews = batch@.map_values(|p: String| p@);
        let mut i: usize = 0;
        proof {
            assert(fviews.take(0) =~= Seq::<Seq<char>>::empty());
        }
        while i < batch.len()
            invariant
                i <= batch@.len(),
                dir == target_directory@,
                fviews == batch@.map_values(|p: String| p@),
                r@ == sudo_prefix(use_sudo) + "sha1sum"@ + checksum_args(dir, fviews.take(i as int)),
            decreases batch@.len() - i,
        {
            r.append(" \"");
            r.append(target_directory.as_str());
            r.append(batch[i].as_str());
            r.append("\"");
            i = i + 1;
            proof {
                reveal_strlit(" \"");
                reveal_strlit("\"");
                assert(" \""@ =~= seq![' ', '"']);
                assert("\""@ =~= seq!['"']);
                assert(fviews[i - 1] == batch@[i - 1]@);
                assert(fviews.take(i as int) =~= fviews.take(i as int - 1).push(fviews[i - 1]));
                lemma_checksum_args_push(dir, fviews.take(i as int - 1), fviews[i - 1]);
                assert(r@ =~= sudo_prefix(use_sudo) + "sha1sum"@ + checksum_args(
                    dir,
                    fviews.take(i as int),
                ));
            }
        }
        proof {
            assert(fviews.take(batch@.len() as int) =~= fviews);
        }
        r
    }

    /// Parses the accumulated checksum output: for each of the first
    /// `file_count` file indices, the digest its output line reports, or
    /// `None` when the line is missing or empty.
    pub fn parse_checksum_output(&self, out: &String, file_count: usize) -> (r: Vec<
        Option<String>,
    >)
        ensures
            r@.len() == file_count,
            forall|i: int|
                0 <= i < file_count ==> opt_str_view(#[trigger] r@[i]) == digest_at(out@, i),
    {
        let lines = split_on_char(out.as_str(), '\n');
        let mut r: Vec<Option<String>> = Vec::new();
        let mut i: usize = 0;
        while i < file_count
            invariant
                i <= file_count,
                r@.len() == i,
                lines@.map_values(|p: String| p@) == split_all(out@, '\n'),
                forall|k: int|
                    0 <= k < i ==> opt_str_view(#[trigger] r@[k]) == digest_at(out@, k),
            decreases file_count - i,
        {
            proof {
                assert(forall|k: int|
                    0 <= k < lines@.len() ==> lines@.map_values(|p: String| p@)[k]
                        == lines@[k]@);
            }
            if i < lines.len() && !lines[i].as_str().is_empty() {
                let fields = split_on_char(lines[i].as_str(), ' ');
                proof {
                    assert(fields@.map_values(|p: String| p@)[0] == fields@[0]@);
                }
                r.push(Some(fields[0].clone()));
            } else {
                r.push(None);
            }
            i = i + 1;
        }
        r
    }
}

/// The command that creates one remote temporary file, run without any
/// privilege-escalation prefix.
pub fn mktemp_command() -> (r: String)
    ensures
        r@ == "mktemp"@,
{
    String::from_str("mktemp")
}

/// The remote temporary file path reported by the temp-file command: the
/// first line of its output.
pub fn parse_mktemp_output(out: &String) -> (r: String)
    ensures
        r@ == split_all(out@, '\n')[0],
{
    let lines = split_on_char(out.as_str(), '\n');
    proof {
        assert(lines@.map_values(|p: String| p@)[0] == lines@[0]@);
    }
    lines[0].clone()
}

} // verus!
