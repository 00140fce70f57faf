//! The selection state tying the install model to the copy engine: at
//! most one chosen installation, and independently for the source and
//! the destination side an optional version and an optional
//! configuration leaf, the account-overwrite flag, and the last run's
//! log.

use vstd::prelude::*;
use crate::engine::CopyParams;
use crate::engine::Engine;
use crate::engine::start_post;
use crate::install::Install;
use crate::install::Version;
use crate::install::Wtf;
use crate::layout::not_ready_line;
use crate::layout::not_ready_line_str;

verus! {

/// The selection state of one copy operation.
pub struct Operation {
    pub install: Option<Install>,
    pub src_ver: Option<Version>,
    pub src_wtf: Option<Wtf>,
    pub dst_ver: Option<Version>,
    pub dst_wtf: Option<Wtf>,
    pub copy_logs: Option<Vec<String>>,
    pub overwrite_account: bool,
}

/// One change to the selection state. The boolean of the selection
/// variants says which side it concerns: `true` for the source.
pub enum Message {
    /// A new installation was chosen (`None` when the chooser was
    /// cancelled, which leaves everything as it was).
    Install(Option<Install>),
    /// A version was chosen for one side.
    Version(Version, bool),
    /// A configuration leaf was chosen for one side.
    Wtf(Wtf, bool),
    /// A copy run ended: a complete log, or the fatal error that
    /// replaced it.
    CopyResult(Result<Vec<String>, String>),
    /// One side's version and leaf selection was cleared.
    Reset(bool),
    /// The account-overwrite flag was set.
    OverwriteToggle(bool),
}

/// The fields of the state that a message leaves alone.
pub open spec fn same_selection(pre: Operation, post: Operation) -> bool {
    &&& post.install == pre.install
    &&& post.src_ver == pre.src_ver
    &&& post.src_wtf == pre.src_wtf
    &&& post.dst_ver == pre.dst_ver
    &&& post.dst_wtf == pre.dst_wtf
}

/// How each message changes the state.
pub open spec fn update_post(pre: Operation, m: Message, post: Operation) -> bool {
    match m {
        Message::OverwriteToggle(o) => {
            &&& same_selection(pre, post)
            &&& post.copy_logs == pre.copy_logs
            &&& post.overwrite_account == o
        },
        Message::Install(inst) => match inst {
            Some(i) => {
                &&& post.install == Some(i)
                &&& post.src_ver is None
                &&& post.src_wtf is None
                &&& post.dst_ver is None
                &&& post.dst_wtf is None
                &&& post.copy_logs == pre.copy_logs
                &&& post.overwrite_account == pre.overwrite_account
            },
            None => post == pre,
        },
        Message::Reset(is_source) => {
            &&& post.install == pre.install
            &&& post.copy_logs == pre.copy_logs
            &&& post.overwrite_account == pre.overwrite_account
            &&& if is_source {
                post.src_ver is None && post.src_wtf is None && post.dst_ver == pre.dst_ver
                    && post.dst_wtf == pre.dst_wtf
            } else {
                post.dst_ver is None && post.dst_wtf is None && post.src_ver == pre.src_ver
                    && post.src_wtf == pre.src_wtf
            }
        },
        Message::Version(ver, is_source) => {
            &&& post.install == pre.install
            &&& post.copy_logs == pre.copy_logs
            &&& post.overwrite_account == pre.overwrite_account
            &&& if is_source {
                post.src_ver == Some(ver) && post.src_wtf == pre.src_wtf && post.dst_ver
                    == pre.dst_ver && post.dst_wtf == pre.dst_wtf
            } else {
                post.dst_ver == Some(ver) && post.dst_wtf == pre.dst_wtf && post.src_ver
                    == pre.src_ver && post.src_wtf == pre.src_wtf
            }
        },
        Message::Wtf(w, is_source) => {
            &&& post.install == pre.install
            &&& post.copy_logs == pre.copy_logs
            &&& post.overwrite_account == pre.overwrite_account
            &&& if is_source {
                &&& post.src_wtf == (if pre.src_ver is Some {
                    Some(w)
                } else {
                    pre.src_wtf
                })
                &&& post.src_ver == pre.src_ver
                &&& post.dst_ver == pre.dst_ver
                &&& post.dst_wtf == pre.dst_wtf
            } else {
                &&& post.dst_wtf == (if pre.dst_ver is Some {
                    Some(w)
                } else {
                    pre.dst_wtf
                })
                &&& post.dst_ver == pre.dst_ver
                &&& post.src_ver == pre.src_ver
                &&& post.src_wtf == pre.src_wtf
            }
        },
        Message::CopyResult(res) => {
            &&& same_selection(pre, post)
            &&& post.overwrite_account == pre.overwrite_account
            &&& match res {
                Ok(log) => post.copy_logs == Some(log),
                Err(e) => post.copy_logs matches Some(l) && l@ =~= seq![e],
            }
        },
    }
}

impl Operation {
    /// A fresh state: the given installation if a default root was
    /// recognized, nothing selected, overwriting enabled.
    pub fn new(install: Option<Install>) -> (r: Operation)
        ensures
            r.install == install,
            r.src_ver is None,
            r.src_wtf is None,
            r.dst_ver is None,
            r.dst_wtf is None,
            r.copy_logs is None,
            r.overwrite_account,
            r.inv(),
    {
        Operation {
            install,
            src_ver: None,
            src_wtf: None,
            dst_ver: None,
            dst_wtf: None,
            copy_logs: None,
            overwrite_account: true,
        }
    }

    /// Well-formedness of the selection: a configuration leaf is only
    /// ever chosen for a side that already has a version chosen.
    pub open spec fn inv(self) -> bool {
        &&& self.src_wtf is Some ==> self.src_ver is Some
        &&& self.dst_wtf is Some ==> self.dst_ver is Some
    }

    /// Apply one message to the selection state. A leaf selection for a
    /// side without a chosen version is ignored, so a well-formed
    /// selection stays well-formed under every message.
    pub fn update(&mut self, message: Message)
        ensures
            update_post(*old(self), message, *final(self)),
            old(self).inv() ==> final(self).inv(),
    {
        match message {
            Message::OverwriteToggle(o) => {
                self.overwrite_account = o;
            },
            Message::Install(inst) => {
                match inst {
                    Some(i) => {
                        self.install = Some(i);
                        self.src_ver = None;
                        self.dst_ver = None;
                        self.src_wtf = None;
                        self.dst_wtf = None;
                    },
                    None => {},
                }
            },
            Message::Reset(is_source) => {
                if is_source {
                    self.src_ver = None;
                    self.src_wtf = None;
                } else {
                    self.dst_ver = None;
                    self.dst_wtf = None;
                }
            },
            Message::Version(ver, is_source) => {
                if is_source {
                    self.src_ver = Some(ver);
                } else {
                    self.dst_ver = Some(ver);
                }
            },
            Message::Wtf(w, is_source) => {
                if is_source {
                    if self.src_ver.is_some() {
                        self.src_wtf = Some(w);
                    }
                } else {
                    if self.dst_ver.is_some() {
                        self.dst_wtf = Some(w);
                    }
                }
            },
            Message::CopyResult(res) => {
                match res {
                    Ok(log) => {
                        self.copy_logs = Some(log);
                    },
                    Err(e) => {
                        let mut l: Vec<String> = Vec::new();
                        l.push(e);
                        proof {
                            assert(l@ =~= seq![e]);
                        }
                        self.copy_logs = Some(l);
                    },
                }
            },
        }
    }

    /// Whether everything a copy run needs has been selected.
    pub open spec fn spec_ready(self) -> bool {
        &&& self.install is Some
        &&& self.src_ver is Some
        &&& self.src_wtf is Some
        &&& self.dst_ver is Some
        &&& self.dst_wtf is Some
    }

    pub fn is_ready(&self) -> (r: bool)
        ensures
            r == self.spec_ready(),
    {
        self.install.is_some() && self.src_ver.is_some() && self.src_wtf.is_some()
            && self.dst_ver.is_some() && self.dst_wtf.is_some()
    }

    /// Whether both chosen leaves belong to the same account; unknown
    /// until both are chosen.
    pub fn is_same_account(&self) -> (r: Option<bool>)
        ensures
            match r {
                None => self.src_wtf is None || self.dst_wtf is None,
                Some(b) => self.src_wtf is Some && self.dst_wtf is Some && b == (
                self.src_wtf->0.account@ == self.dst_wtf->0.account@),
            },
    {
        match (&self.src_wtf, &self.dst_wtf) {
            (Some(s), Some(d)) => Some(s.account.eq(&d.account)),
            _ => None,
        }
    }

    /// Whether both sides chose the same version (by name); unknown
    /// until both are chosen.
    pub fn is_same_ver(&self) -> (r: Option<bool>)
        ensures
            match r {
                None => self.src_ver is None || self.dst_ver is None,
                Some(b) => self.src_ver is Some && self.dst_ver is Some && b == (
                self.src_ver->0.name@ == self.dst_ver->0.name@),
            },
    {
        match (&self.src_ver, &self.dst_ver) {
            (Some(s), Some(d)) => Some(s.name.eq(&d.name)),
            _ => None,
        }
    }
}

/// The copy request a complete selection resolves to.
pub open spec fn params_match(op: Operation, p: CopyParams) -> bool {
    &&& op.spec_ready()
    &&& p.install_dir@ == op.install->0.install_dir@
    &&& p.src_ver@ == op.src_ver->0.name@
    &&& p.dst_ver@ == op.dst_ver->0.name@
    &&& p.src_account@ == op.src_wtf->0.account@
    &&& p.dst_account@ == op.dst_wtf->0.account@
    &&& p.src_realm@ == op.src_wtf->0.realm@
    &&& p.src_character@ == op.src_wtf->0.character@
    &&& p.dst_realm@ == op.dst_wtf->0.realm@
    &&& p.dst_character@ == op.dst_wtf->0.character@
    &&& p.overwrite_account == op.overwrite_account
}

impl Operation {
    /// Begin a copy run for the current selection.
    ///
    /// Before anything is touched the selection is checked: a partial
    /// one fails at once with the single not-ready message and no
    /// engine is built. A complete one yields a freshly started engine
    /// for exactly this request.
    pub fn begin_copy(&self) -> (r: Result<Engine, String>)
        ensures
            match r {
                Ok(e) => self.spec_ready() && params_match(*self, e.params) && start_post(e),
                Err(m) => !self.spec_ready() && m@ == not_ready_line(),
            },
    {
        match (&self.install, &self.src_ver, &self.src_wtf, &self.dst_ver, &self.dst_wtf) {
            (Some(inst), Some(sv), Some(sw), Some(dv), Some(dw)) => {
                let params = CopyParams {
                    install_dir: inst.install_dir.clone(),
                    src_ver: sv.name.clone(),
                    dst_ver: dv.name.clone(),
                    src_account: sw.account.clone(),
                    dst_account: dw.account.clone(),
                    src_realm: sw.realm.clone(),
                    src_character: sw.character.clone(),
                    dst_realm: dw.realm.clone(),
                    dst_character: dw.character.clone(),
                    overwrite_account: self.overwrite_account,
                };
                Ok(Engine::start(params))
            },
            _ => Err(not_ready_line_str()),
        }
    }
}

} // verus!
