//! Remote command construction for the post-deploy phase: archive
//! extraction, cleanup of the remote temporary file, and the ordered
//! sequence of commands run for one uploaded package. Commands are built
//! here as plain strings; running them is the surrounding program's job.

use vstd::prelude::*;
use vstd::string::*;
use crate::config::DeployPackage;

verus! {

/// The privilege-escalation prefix a remote command is optionally run
/// under.
pub open spec fn sudo_prefix(use_sudo: bool) -> Seq<char> {
    if use_sudo {
        "sudo "@
    } else {
        Seq::<char>::empty()
    }
}

/// The optional privilege-escalation prefix as a string.
pub fn sudo_prefix_str(use_sudo: bool) -> (r: String)
    ensures
        r@ == sudo_prefix(use_sudo),
{
    if use_sudo {
        String::from_str("sudo ")
    } else {
        String::new()
    }
}

/// Runs the remote side of a package's post-deploy phase: pre-deploy
/// actions, archive extraction, post-deploy actions, and temp-file cleanup,
/// in that order.
pub struct RemoteActionRunner {
    pub use_sudo: bool,
}

impl RemoteActionRunner {
    pub fn new(use_sudo: bool) -> (r: RemoteActionRunner)
        ensures
            r.use_sudo == use_sudo,
    {
        RemoteActionRunner { use_sudo }
    }

    /// The command that unpacks the uploaded archive at the remote
    /// temporary path into the package's target directory.
    pub fn extract_command(&self, temp_path: &String, target_directory: &String) -> (r: String)
        ensures
            r@ == sudo_prefix(self.use_sudo) + "tar -xzf '"@ + temp_path@ + "' --directory '"@
                + target_directory@ + "'"@,
    {
        let mut r = sudo_prefix_str(self.use_sudo);
        r.append("tar -xzf '");
        r.append(temp_path.as_str());
        r.append("' --directory '");
        r.append(target_directory.as_str());
        r.append("'");
        r
    }

    /// The command that removes the remote temporary file after
    /// extraction.
    pub fn cleanup_command(&self, temp_path: &String) -> (r: String)
        ensures
            r@ == sudo_prefix(self.use_sudo) + "rm -f \""@ + temp_path@ + "\""@,
    {
        let mut r = sudo_prefix_str(self.use_sudo);
        r.append("rm -f \"");
        r.append(temp_path.as_str());
        r.append("\"");
        r
    }

    /// The full ordered command sequence for one uploaded package: its
    /// pre-deploy actions verbatim and in declared order, then extraction,
    /// then its post-deploy actions verbatim and in declared order, then
    /// cleanup. Any per-command failure in this sequence aborts the whole
    /// post-deploy phase for the target.
    pub fn command_sequence(&self, package: &DeployPackage, temp_path: &String) -> (r: Vec<
        String,
    >)
        ensures
            r@.map_values(|c: String| c@) == action_views(&package.pre_deploy_actions) + seq![
                sudo_prefix(self.use_sudo) + "tar -xzf '"@ + temp_path@ + "' --directory '"@
                    + package.target_directory@ + "'"@,
            ] + action_views(&package.post_deploy_actions) + seq![
                sudo_prefix(self.use_sudo) + "rm -f \""@ + temp_path@ + "\""@,
            ],
    {
        let mut r: Vec<String> = Vec::new();
        push_actions(&mut r, &package.pre_deploy_actions);
        proof {
            assert(r@.map_values(|c: String| c@) =~= action_views(&package.pre_deploy_actions));
        }
        let ghost before_extract = r@;
        r.push(self.extract_command(temp_path, &package.target_directory));
        proof {
            assert(r@.map_values(|c: String| c@) =~= before_extract.map_values(|c: String| c@)
                + seq![
                sudo_prefix(self.use_sudo) + "tar -xzf '"@ + temp_path@ + "' --directory '"@
                    + package.target_directory@ + "'"@,
            ]);
        }
        push_actions(&mut r, &package.post_deploy_actions);
        let ghost before_cleanup = r@;
        r.push(self.cleanup_command(temp_path));
        proof {
            assert(r@.map_values(|c: String| c@) =~= before_cleanup.map_values(|c: String| c@)
                + seq![sudo_prefix(self.use_sudo) + "rm -f \""@ + temp_path@ + "\""@]);
        }
        r
    }
}

/// The views of a package's optional action list: its commands in declared
/// order, or nothing when the list is absent.
pub open spec fn action_views(actions: &Option<Vec<String>>) -> Seq<Seq<char>> {
    match actions {
        Some(v) => v@.map_values(|c: String| c@),
        None => Seq::<Seq<char>>::empty(),
    }
}

/// Appends an optional action list verbatim, in declared order.
fn push_actions(r: &mut Vec<String>, actions: &Option<Vec<String>>)
    ensures
        final(r)@.map_values(|c: String| c@) == old(r)@.map_values(|c: String| c@)
            + action_views(actions),
{
    match actions {
        Some(v) => {
            let mut i: usize = 0;
            proof {
                assert(r@.map_values(|c: String| c@) =~= old(r)@.map_values(|c: String| c@)
                    + v@.take(0).map_values(|c: String| c@));
            }
            while i < v.len()
                invariant
                    i <= v@.len(),
                    r@.map_values(|c: String| c@) == old(r)@.map_values(|c: String| c@)
                        + v@.take(i as int).map_values(|c: String| c@),
                decreases v@.len() - i,
            {
                let ghost before = r@;
                r.push(v[i].clone());
                i = i + 1;
                proof {
                    let x = v@[i as int - 1]@;
                    assert(r@.map_values(|c: String| c@) =~= before.map_values(
                        |c: String| c@,
                    ).push(x));
                    assert(v@.take(i as int).map_values(|c: String| c@) =~= v@.take(
                        i as int - 1,
                    ).map_values(|c: String| c@).push(x));
                    assert((old(r)@.map_values(|c: String| c@) + v@.take(i as int - 1).map_values(
                        |c: String| c@,
                    )).push(x) =~= old(r)@.map_values(|c: String| c@) + v@.take(
                        i as int - 1,
                    ).map_values(|c: String| c@).push(x));
                }
            }
            proof {
                assert(v@.take(v@.len() as int) =~= v@);
                assert(r@.map_values(|c: String| c@) =~= old(r)@.map_values(|c: String| c@)
                    + action_views(actions));
            }
        },
        None => {
            proof {
                assert(r@.map_values(|c: String| c@) =~= old(r)@.map_values(|c: String| c@)
                    + action_views(actions));
            }
        },
    }
}

} // verus!
