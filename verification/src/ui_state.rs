//! The shared progress store the interactive view reads. Each target's
//! state machine writes only its own slot, keyed by target index; the store
//! itself is a passive record updated at every phase and package
//! transition. Rendering the terminal view is the surrounding program's
//! job; the text for one target's state line is built here.

use std::collections::BTreeMap;
use vstd::prelude::*;
use vstd::string::*;
verus! {

broadcast use vstd::laws_cmp::group_laws_cmp, vstd::std_specs::btree::group_btree_axioms;

/// Which screen the whole run is on.
#[allow(non_camel_case_types)]
#[derive(Copy, Clone, PartialEq, Eq, Structural, Debug)]
pub enum UIScreen {
    CONFIG,
    TARGET_START,
    FINISHED,
    FINISHED_END,
}

/// The phase tag shown for one target.
#[allow(non_camel_case_types)]
#[derive(Copy, Clone, PartialEq, Eq, Structural, Debug)]
pub enum UITargetState {
    TARGET_START,
    TARGET_CHECKSUM,
    TARGET_UPLOADING,
    TARGET_NO_CHANGES,
    TARGET_FINISHING,
    TARGET_FINISHED,
}

/// One target's progress record: phase tag, current package, and upload
/// progress in bytes. Written exclusively by that target's state machine.
pub struct TargetState {
    pub state: UITargetState,
    pub name: String,
    pub upload_package: String,
    pub upload_pos: u64,
    pub upload_len: u64,
}

/// The process-wide progress store, partitioned by target index.
pub struct UIStore {
    pub screen: UIScreen,
    pub targets_count: u32,
    pub packages_count: u32,
    pub deployed_count: u32,
    pub exit_on_finish: bool,
    pub deployment_targets: BTreeMap<u32, TargetState>,
}

impl UIStore {
    /// A fresh store: configuration screen, no targets registered.
    pub fn new() -> (r: UIStore)
        ensures
            r.screen == UIScreen::CONFIG,
            r.targets_count == 0,
            r.packages_count == 0,
            r.deployed_count == 0,
            !r.exit_on_finish,
            r.deployment_targets@ == Map::<u32, TargetState>::empty(),
    {
        UIStore {
            screen: UIScreen::CONFIG,
            targets_count: 0,
            packages_count: 0,
            deployed_count: 0,
            exit_on_finish: false,
            deployment_targets: BTreeMap::new(),
        }
    }

    pub fn set_screen(&mut self, state: UIScreen) -> (r: &mut UIStore)
        ensures
            *r == (UIStore { screen: state, ..*old(self) }),
            *final(self) == *final(r),
    {
        self.screen = state;
        self
    }

    pub fn set_targets_count(&mut self, count: u32) -> (r: &mut UIStore)
        ensures
            *r == (UIStore { targets_count: count, ..*old(self) }),
            *final(self) == *final(r),
    {
        self.targets_count = count;
        self
    }

    pub fn set_packages_count(&mut self, count: u32) -> (r: &mut UIStore)
        ensures
            *r == (UIStore { packages_count: count, ..*old(self) }),
            *final(self) == *final(r),
    {
        self.packages_count = count;
        self
    }

    pub fn set_deployed_count(&mut self, count: u32) -> (r: &mut UIStore)
        ensures
            *r == (UIStore { deployed_count: count, ..*old(self) }),
            *final(self) == *final(r),
    {
        self.deployed_count = count;
        self
    }

    pub fn set_exit_on_finish(&mut self, exit_on_finish: bool) -> (r: &mut UIStore)
        ensures
            *r == (UIStore { exit_on_finish, ..*old(self) }),
            *final(self) == *final(r),
    {
        self.exit_on_finish = exit_on_finish;
        self
    }

    /// Writes one target's progress slot; every other slot is untouched.
    pub fn set_deployment_target(&mut self, index: u32, target: TargetState) -> (r: &mut UIStore)
        ensures
            r.deployment_targets@ == old(self).deployment_targets@.insert(index, target),
            r.screen == old(self).screen,
            r.targets_count == old(self).targets_count,
            r.packages_count == old(self).packages_count,
            r.deployed_count == old(self).deployed_count,
            r.exit_on_finish == old(self).exit_on_finish,
            *final(self) == *final(r),
    {
        self.deployment_targets.insert(index, target);
        self
    }

    /// Records one target's phase or package transition in its slot: the
    /// phase tag always; the current package name and the byte progress
    /// only where given. A target index with no slot is left untouched,
    /// and no other slot ever changes.
    pub fn update_target(
        &mut self,
        index: u32,
        state: UITargetState,
        package: Option<String>,
        progress: Option<(u64, u64)>,
    )
        ensures
            final(self).screen == old(self).screen,
            final(self).targets_count == old(self).targets_count,
            final(self).packages_count == old(self).packages_count,
            final(self).deployed_count == old(self).deployed_count,
            final(self).exit_on_finish == old(self).exit_on_finish,
            old(self).deployment_targets@.contains_key(index) ==> final(self).deployment_targets@
                == old(self).deployment_targets@.insert(
                index,
                TargetState {
                    state,
                    name: old(self).deployment_targets@[index].name,
                    upload_package: match package {
                        Some(p) => p,
                        None => old(self).deployment_targets@[index].upload_package,
                    },
                    upload_pos: match progress {
                        Some(pr) => pr.0,
                        None => old(self).deployment_targets@[index].upload_pos,
                    },
                    upload_len: match progress {
                        Some(pr) => pr.1,
                        None => old(self).deployment_targets@[index].upload_len,
                    },
                },
            ),
            !old(self).deployment_targets@.contains_key(index) ==> final(self).deployment_targets@
                == old(self).deployment_targets@,
    {
        let updated = match self.deployment_targets.get(&index) {
            Some(slot) => {
                let upload_package = match package {
                    Some(p) => p,
                    None => slot.upload_package.clone(),
                };
                let (upload_pos, upload_len) = match progress {
                    Some(pr) => pr,
                    None => (slot.upload_pos, slot.upload_len),
                };
                Some(
                    TargetState {
                        state,
                        name: slot.name.clone(),
                        upload_package,
                        upload_pos,
                        upload_len,
                    },
                )
            },
            None => None,
        };
        match updated {
            Some(slot) => {
                self.deployment_targets.insert(index, slot);
            },
            None => {},
        }
    }

    /// A detached copy of the run-level fields, with no target slots: the
    /// form the store is first published in.
    pub fn finalize(&self) -> (r: UIStore)
        ensures
            r.screen == self.screen,
            r.targets_count == self.targets_count,
            r.packages_count == self.packages_count,
            r.deployed_count == self.deployed_count,
            r.exit_on_finish == self.exit_on_finish,
            r.deployment_targets@ == Map::<u32, TargetState>::empty(),
    {
        UIStore {
            screen: self.screen,
            targets_count: self.targets_count,
            packages_count: self.packages_count,
            deployed_count: self.deployed_count,
            exit_on_finish: self.exit_on_finish,
            deployment_targets: BTreeMap::new(),
        }
    }
}

/// The decimal digit character for a value below ten.
pub open spec fn dec_digit_char(n: int) -> char {
    if n == 0 { '0' } else if n == 1 { '1' } else if n == 2 { '2' } else if n == 3 { '3' }
    else if n == 4 { '4' } else if n == 5 { '5' } else if n == 6 { '6' } else if n == 7 { '7' }
    else if n == 8 { '8' } else { '9' }
}

/// The decimal rendering of a non-negative number, most significant digit
/// first, with no leading zeros.
pub open spec fn dec_str_of(n: int) -> Seq<char>
    recommends
        n >= 0,
    decreases n,
{
    if n < 10 {
        seq![dec_digit_char(n)]
    } else {
        dec_str_of(n / 10) + seq![dec_digit_char(n % 10)]
    }
}

/// One decimal digit as a string slice.
fn dec_digit_str(n: u64) -> (r: &'static str)
    requires
        n < 10,
    ensures
        r@ == seq![dec_digit_char(n as int)],
{
    let r: &'static str = match n {
        0 => "0",
        1 => "1",
        2 => "2",
        3 => "3",
        4 => "4",
        5 => "5",
        6 => "6",
        7 => "7",
        8 => "8",
        _ => "9",
    };
    proof {
        reveal_strlit("0");
        reveal_strlit("1");
        reveal_strlit("2");
        reveal_strlit("3");
        reveal_strlit("4");
        reveal_strlit("5");
        reveal_strlit("6");
        reveal_strlit("7");
        reveal_strlit("8");
        reveal_strlit("9");
        assert(r@ =~= seq![dec_digit_char(n as int)]);
    }
    r
}

/// Renders a number in decimal.
pub fn u64_to_string(n: u64) -> (s: String)
    ensures
        s@ == dec_str_of(n as int),
    decreases n,
{
    if n < 10 {
        dec_digit_str(n).to_owned()
    } else {
        let mut s = u64_to_string(n / 10);
        s.append(dec_digit_str(n % 10));
        s
    }
}

/// The state-line text for one target, by phase tag.
pub open spec fn target_state_text(
    state: UITargetState,
    package: Seq<char>,
    pos: u64,
    len: u64,
) -> Seq<char> {
    match state {
        UITargetState::TARGET_START => "[1/5] starting deployment"@,
        UITargetState::TARGET_CHECKSUM => "[2/5] computing checksum "@ + package,
        UITargetState::TARGET_UPLOADING => "[3/5] uploading "@ + package + " ("@ + dec_str_of(
            pos as int,
        ) + "/"@ + dec_str_of(len as int) + ")"@,
        UITargetState::TARGET_NO_CHANGES => "[3/5] no changes for "@ + package,
        UITargetState::TARGET_FINISHING => "[4/5] finishing deployment"@,
        UITargetState::TARGET_FINISHED => "[5/5] finished"@,
    }
}

/// Builds the state line shown for one target.
pub fn convert_target_state_to_str(
    state: UITargetState,
    upload_package: String,
    upload_pos: u64,
    upload_len: u64,
) -> (r: Result<String, ()>)
    ensures
        match r {
            Ok(s) => s@ == target_state_text(state, upload_package@, upload_pos, upload_len),
            Err(_) => false,
        },
{
    Ok(
        match state {
            UITargetState::TARGET_START => String::from_str("[1/5] starting deployment"),
            UITargetState::TARGET_CHECKSUM => {
                let mut s = String::from_str("[2/5] computing checksum ");
                s.append(upload_package.as_str());
                s
            },
            UITargetState::TARGET_UPLOADING => {
                let mut s = String::from_str("[3/5] uploading ");
                s.append(upload_package.as_str());
                s.append(" (");
                let pos_text = u64_to_string(upload_pos);
                s.append(pos_text.as_str());
                s.append("/");
                let len_text = u64_to_string(upload_len);
                s.append(len_text.as_str());
                s.append(")");
                s
            },
            UITargetState::TARGET_NO_CHANGES => {
                let mut s = String::from_str("[3/5] no changes for ");
                s.append(upload_package.as_str());
                s
            },
            UITargetState::TARGET_FINISHING => String::from_str("[4/5] finishing deployment"),
            UITargetState::TARGET_FINISHED => String::from_str("[5/5] finished"),
        },
    )
}

} // verus!
