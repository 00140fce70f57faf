//! The copy engine: an ordered run of file-copy and cache-invalidation
//! steps from a resolved source to a resolved destination.
//!
//! The engine owns every decision but performs no filesystem work
//! itself. A caller runs it as a loop: [`Engine::next_action`] names
//! the one filesystem operation to perform next, the caller performs it
//! and reports what happened through [`Engine::step`], until
//! [`Engine::outcome`] says the run finished with a complete log or
//! halted on a structural error.
//!
//! Per-file copy and delete failures are recorded in the log and never
//! stop the run; a failure to list a source `SavedVariables` directory,
//! or to create the destination one, is fatal: the run halts and the
//! error replaces the log as the outcome.

use vstd::prelude::*;
use crate::install::lemma_filter_take_step;
use crate::layout::account_catalog;
use crate::layout::account_file;
use crate::layout::cache_of;
use crate::layout::cache_path;
use crate::layout::char_catalog;
use crate::layout::char_file;
use crate::layout::copied_line_str;
use crate::layout::copy_err_line_str;
use crate::layout::copy_line;
use crate::layout::created_line;
use crate::layout::created_line_str;
use crate::layout::has_lua_ext;
use crate::layout::is_lua_name;
use crate::layout::join;
use crate::layout::jv;
use crate::layout::lua_pred;
use crate::layout::remove_err_line_str;
use crate::layout::remove_line;
use crate::layout::removed_line_str;
use crate::layout::savedvars_of;
use crate::layout::savedvars_path;
use crate::layout::skip_line;
use crate::layout::skip_line_str;

verus! {

/// A fully resolved copy request: where the installation lives, the
/// source and destination version, account, realm and character, and
/// whether account-level files may be overwritten.
pub struct CopyParams {
    pub install_dir: String,
    pub src_ver: String,
    pub dst_ver: String,
    pub src_account: String,
    pub dst_account: String,
    pub src_realm: String,
    pub src_character: String,
    pub dst_realm: String,
    pub dst_character: String,
    pub overwrite_account: bool,
}

/// The account root of one side:
/// `<install_dir>/<version>/WTF/Account/<account>`.
pub open spec fn account_root_of(p: CopyParams, source: bool) -> Seq<char> {
    jv(
        jv(
            jv(jv(p.install_dir@, if source { p.src_ver@ } else { p.dst_ver@ }), "WTF"@),
            "Account"@,
        ),
        if source { p.src_account@ } else { p.dst_account@ },
    )
}

/// The character root of one side: `<account_root>/<realm>/<character>`.
pub open spec fn char_root_of(p: CopyParams, source: bool) -> Seq<char> {
    jv(
        jv(account_root_of(p, source), if source { p.src_realm@ } else { p.dst_realm@ }),
        if source { p.src_character@ } else { p.dst_character@ },
    )
}

fn account_root(p: &CopyParams, source: bool) -> (r: String)
    ensures
        r@ == account_root_of(*p, source),
{
    let v: &String = if source { &p.src_ver } else { &p.dst_ver };
    let a: &String = if source { &p.src_account } else { &p.dst_account };
    let s = join(p.install_dir.as_str(), v.as_str());
    let s = join(s.as_str(), "WTF");
    let s = join(s.as_str(), "Account");
    join(s.as_str(), a.as_str())
}

fn char_root(p: &CopyParams, source: bool) -> (r: String)
    ensures
        r@ == char_root_of(*p, source),
{
    let realm: &String = if source { &p.src_realm } else { &p.dst_realm };
    let ch: &String = if source { &p.src_character } else { &p.dst_character };
    let s = account_root(p, source);
    let s = join(s.as_str(), realm.as_str());
    join(s.as_str(), ch.as_str())
}

/// The account-level step is skipped when both sides use the same
/// account, or the caller disabled overwriting account-level files.
pub open spec fn skip_account(p: CopyParams) -> bool {
    p.src_account@ == p.dst_account@ || !p.overwrite_account
}

/// One filesystem operation the caller must perform for the engine.
pub enum Action {
    /// Copy the file at `src` to `dst`.
    Copy { src: String, dst: String },
    /// List the file names directly inside `dir`.
    List { dir: String },
    /// Make sure directory `dir` exists, creating all missing parents.
    Ensure { dir: String },
    /// Delete the file at `path`.
    Remove { path: String },
}

/// What came of the last requested [`Action`], with the underlying
/// error rendered as text where one occurred. `Ensured(Ok(created))`
/// reports whether the directory had to be created.
pub enum Event {
    Copied(Result<(), String>),
    Listed(Result<Vec<String>, String>),
    Ensured(Result<bool, String>),
    Removed(Result<(), String>),
}

/// Where the run stands: which step the next action belongs to.
#[derive(Clone, Copy)]
pub enum Stage {
    AcctFiles,
    AcctList,
    AcctLua,
    AcctCache,
    CharFiles,
    CharEnsure,
    CharList,
    CharLua,
    CharCache,
    Done,
    Failed,
}

/// The run's result: still in progress, a complete log, or the fatal
/// structural error that replaced it.
pub enum RunState {
    Running,
    Finished(Vec<String>),
    Failed(String),
}

pub open spec fn stage_is_account(s: Stage) -> bool {
    matches!(s, Stage::AcctFiles | Stage::AcctList | Stage::AcctLua | Stage::AcctCache)
}

pub open spec fn stage_is_character(s: Stage) -> bool {
    matches!(
        s,
        Stage::CharFiles | Stage::CharEnsure | Stage::CharList | Stage::CharLua | Stage::CharCache
    )
}

pub open spec fn stage_is_terminal(s: Stage) -> bool {
    matches!(s, Stage::Done | Stage::Failed)
}

/// The views of a sequence of owned strings.
pub open spec fn views(l: Seq<String>) -> Seq<Seq<char>> {
    l.map_values(|s: String| s@)
}

/// Taking views commutes with appending one line.
pub proof fn lemma_views_push(s: Seq<String>, x: String)
    ensures
        views(s.push(x)) =~= views(s).push(x@),
{
}

/// Which event kind answers the action of a stage.
pub open spec fn event_fits(s: Stage, ev: Event) -> bool {
    match s {
        Stage::AcctFiles | Stage::AcctLua | Stage::CharFiles | Stage::CharLua => ev is Copied,
        Stage::AcctList | Stage::CharList => ev is Listed,
        Stage::CharEnsure => ev is Ensured,
        Stage::AcctCache | Stage::CharCache => ev is Removed,
        Stage::Done | Stage::Failed => false,
    }
}

/// The copy engine's state: the request, the current stage, the index
/// into the stage's file list, the saved-variables names still to copy,
/// the log so far, and the fatal error once one occurred.
pub struct Engine {
    pub params: CopyParams,
    pub stage: Stage,
    pub idx: usize,
    pub pending: Vec<String>,
    pub log: Vec<String>,
    pub fatal: Option<String>,
}

impl Engine {
    /// The state invariant: the index stays inside the stage's file
    /// list, and a fatal error is recorded exactly in the failed stage.
    pub open spec fn wf(self) -> bool {
        &&& match self.stage {
            Stage::AcctFiles => self.idx < 4,
            Stage::AcctLua => self.idx < self.pending@.len(),
            Stage::CharFiles => self.idx < 5,
            Stage::CharLua => self.idx < self.pending@.len(),
            _ => true,
        }
        &&& (self.fatal is Some <==> self.stage is Failed)
    }

    /// What the action of the current stage must be: which file is
    /// copied from where to where, which directory is listed or
    /// created, which cache file is deleted.
    pub open spec fn expected_action(self, a: Action) -> bool {
        let p = self.params;
        match self.stage {
            Stage::AcctFiles => (a matches Action::Copy { src, dst } && (src@ == jv(
                account_root_of(p, true),
                account_catalog()[self.idx as int],
            ) && dst@ == jv(account_root_of(p, false), account_catalog()[self.idx as int]))),
            Stage::AcctList => (a matches Action::List { dir } && dir@ == savedvars_of(
                account_root_of(p, true),
            )),
            Stage::AcctLua => (a matches Action::Copy { src, dst } && (src@ == jv(
                savedvars_of(account_root_of(p, true)),
                self.pending@[self.idx as int]@,
            ) && dst@ == jv(
                savedvars_of(account_root_of(p, false)),
                self.pending@[self.idx as int]@,
            ))),
            Stage::AcctCache => (a matches Action::Remove { path } && path@ == cache_of(
                account_root_of(p, false),
            )),
            Stage::CharFiles => (a matches Action::Copy { src, dst } && (src@ == jv(
                char_root_of(p, true),
                char_catalog()[self.idx as int],
            ) && dst@ == jv(char_root_of(p, false), char_catalog()[self.idx as int]))),
            Stage::CharEnsure => (a matches Action::Ensure { dir } && dir@ == savedvars_of(
                char_root_of(p, false),
            )),
            Stage::CharList => (a matches Action::List { dir } && dir@ == savedvars_of(
                char_root_of(p, true),
            )),
            Stage::CharLua => (a matches Action::Copy { src, dst } && (src@ == jv(
                savedvars_of(char_root_of(p, true)),
                self.pending@[self.idx as int]@,
            ) && dst@ == jv(
                savedvars_of(char_root_of(p, false)),
                self.pending@[self.idx as int]@,
            ))),
            Stage::CharCache => (a matches Action::Remove { path } && path@ == cache_of(
                char_root_of(p, false),
            )),
            Stage::Done => false,
            Stage::Failed => false,
        }
    }
}

/// What holds of a freshly started engine: no fatal error yet, and
/// either the account-level step was skipped with exactly the one skip
/// line in the log, or the run begins at the first account-scoped file
/// with an empty log.
pub open spec fn start_post(e: Engine) -> bool {
    &&& e.wf()
    &&& e.fatal is None
    &&& e.idx == 0
    &&& if skip_account(e.params) {
        views(e.log@) =~= seq![skip_line()] && e.stage is CharFiles
    } else {
        e.log@.len() == 0 && e.stage is AcctFiles
    }
}

/// The full transition relation of one step, by stage and event.
pub open spec fn step_post(pre: Engine, ev: Event, post: Engine) -> bool {
    &&& post.params == pre.params
    &&& match (pre.stage, ev) {
        (Stage::AcctFiles, Event::Copied(res)) => {
            &&& views(post.log@) =~= views(pre.log@).push(
                copy_line(
                    account_catalog()[pre.idx as int],
                    jv(account_root_of(pre.params, true), account_catalog()[pre.idx as int]),
                    res,
                ),
            )
            &&& post.fatal is None
            &&& if pre.idx == 3 {
                post.stage is AcctList && post.idx == 0
            } else {
                post.stage is AcctFiles && post.idx == pre.idx + 1
            }
        },
        (Stage::AcctList, Event::Listed(res)) => match res {
            Ok(names) => {
                &&& post.log == pre.log
                &&& post.fatal is None
                &&& views(post.pending@) =~= views(names@).filter(lua_pred())
                &&& post.idx == 0
                &&& if views(names@).filter(lua_pred()).len() == 0 {
                    post.stage is AcctCache
                } else {
                    post.stage is AcctLua
                }
            },
            Err(e) => {
                &&& post.log == pre.log
                &&& post.stage is Failed
                &&& post.fatal == Some(e)
            },
        },
        (Stage::AcctLua, Event::Copied(res)) => {
            &&& views(post.log@) =~= views(pre.log@).push(
                copy_line(
                    pre.pending@[pre.idx as int]@,
                    jv(
                        savedvars_of(account_root_of(pre.params, true)),
                        pre.pending@[pre.idx as int]@,
                    ),
                    res,
                ),
            )
            &&& post.fatal is None
            &&& post.pending == pre.pending
            &&& if pre.idx + 1 == pre.pending@.len() {
                post.stage is AcctCache && post.idx == 0
            } else {
                post.stage is AcctLua && post.idx == pre.idx + 1
            }
        },
        (Stage::AcctCache, Event::Removed(res)) => {
            &&& views(post.log@) =~= views(pre.log@).push(
                remove_line("cache.md5"@, cache_of(account_root_of(pre.params, false)), res),
            )
            &&& post.fatal is None
            &&& post.stage is CharFiles
            &&& post.idx == 0
        },
        (Stage::CharFiles, Event::Copied(res)) => {
            &&& views(post.log@) =~= views(pre.log@).push(
                copy_line(
                    char_catalog()[pre.idx as int],
                    jv(char_root_of(pre.params, false), char_catalog()[pre.idx as int]),
                    res,
                ),
            )
            &&& post.fatal is None
            &&& if pre.idx == 4 {
                post.stage is CharEnsure && post.idx == 0
            } else {
                post.stage is CharFiles && post.idx == pre.idx + 1
            }
        },
        (Stage::CharEnsure, Event::Ensured(res)) => match res {
            Ok(created) => {
                &&& if created {
                    views(post.log@) =~= views(pre.log@).push(
                        created_line(savedvars_of(char_root_of(pre.params, false))),
                    )
                } else {
                    post.log == pre.log
                }
                &&& post.fatal is None
                &&& post.stage is CharList
            },
            Err(e) => {
                &&& post.log == pre.log
                &&& post.stage is Failed
                &&& post.fatal == Some(e)
            },
        },
        (Stage::CharList, Event::Listed(res)) => match res {
            Ok(names) => {
                &&& post.log == pre.log
                &&& post.fatal is None
                &&& views(post.pending@) =~= views(names@).filter(lua_pred())
                &&& post.idx == 0
                &&& if views(names@).filter(lua_pred()).len() == 0 {
                    post.stage is CharCache
                } else {
                    post.stage is CharLua
                }
            },
            Err(e) => {
                &&& post.log == pre.log
                &&& post.stage is Failed
                &&& post.fatal == Some(e)
            },
        },
        (Stage::CharLua, Event::Copied(res)) => {
            &&& views(post.log@) =~= views(pre.log@).push(
                copy_line(
                    pre.pending@[pre.idx as int]@,
                    jv(
                        savedvars_of(char_root_of(pre.params, false)),
                        pre.pending@[pre.idx as int]@,
                    ),
                    res,
                ),
            )
            &&& post.fatal is None
            &&& post.pending == pre.pending
            &&& if pre.idx + 1 == pre.pending@.len() {
                post.stage is CharCache && post.idx == 0
            } else {
                post.stage is CharLua && post.idx == pre.idx + 1
            }
        },
        (Stage::CharCache, Event::Removed(res)) => {
            &&& views(post.log@) =~= views(pre.log@).push(
                remove_line("cache.md5"@, cache_of(char_root_of(pre.params, false)), res),
            )
            &&& post.fatal is None
            &&& post.stage is Done
        },
        _ => false,
    }
}

/// Keeps only the names with the `.lua` extension, in listing order.
pub fn lua_filter(names: Vec<String>) -> (r: Vec<String>)
    ensures
        views(r@) =~= views(names@).filter(lua_pred()),
{
    let ghost nv = views(names@);
    let mut r: Vec<String> = Vec::new();
    let mut i: usize = 0;
    while i < names.len()
        invariant
            i <= names.len(),
            nv == views(names@),
            views(r@) =~= nv.take(i as int).filter(lua_pred()),
        decreases names.len() - i,
    {
        proof {
            lemma_filter_take_step(nv, lua_pred(), i as int);
        }
        if has_lua_ext(names[i].as_str()) {
            let ghost pre = r@;
            let n = names[i].clone();
            r.push(n);
            proof {
                lemma_views_push(pre, n);
            }
        }
        i += 1;
    }
    proof {
        assert(nv.take(names@.len() as int) =~= nv);
    }
    r
}

impl Engine {
    /// Begin a run for a resolved request.
    ///
    /// When the account-level step is owed (different accounts and
    /// overwriting enabled) the run starts at the first account-scoped
    /// catalog file. Otherwise it skips straight to the character-level
    /// step, logging exactly the one skip line — no account-scoped
    /// action will ever be issued, as account actions only come from
    /// account stages and those are never re-entered.
    pub fn start(params: CopyParams) -> (e: Engine)
        ensures
            e.params == params,
            start_post(e),
    {
        let skip = params.src_account.eq(&params.dst_account) || !params.overwrite_account;
        if skip {
            let mut log: Vec<String> = Vec::new();
            log.push(skip_line_str());
            proof {
                assert(views(log@) =~= seq![skip_line()]);
            }
            Engine {
                params,
                stage: Stage::CharFiles,
                idx: 0,
                pending: Vec::new(),
                log,
                fatal: None,
            }
        } else {
            Engine {
                params,
                stage: Stage::AcctFiles,
                idx: 0,
                pending: Vec::new(),
                log: Vec::new(),
                fatal: None,
            }
        }
    }

    /// The one filesystem operation to perform next, or `None` when the
    /// run is over.
    pub fn next_action(&self) -> (r: Option<Action>)
        requires
            self.wf(),
        ensures
            match r {
                Some(a) => !stage_is_terminal(self.stage) && self.expected_action(a),
                None => stage_is_terminal(self.stage),
            },
    {
        match self.stage {
            Stage::AcctFiles => {
                let name = account_file(self.idx);
                let src_root = account_root(&self.params, true);
                let dst_root = account_root(&self.params, false);
                Some(
                    Action::Copy {
                        src: join(src_root.as_str(), name.as_str()),
                        dst: join(dst_root.as_str(), name.as_str()),
                    },
                )
            },
            Stage::AcctList => {
                let src_root = account_root(&self.params, true);
                Some(Action::List { dir: savedvars_path(src_root.as_str()) })
            },
            Stage::AcctLua => {
                let src_root = account_root(&self.params, true);
                let dst_root = account_root(&self.params, false);
                let src_sv = savedvars_path(src_root.as_str());
                let dst_sv = savedvars_path(dst_root.as_str());
                let name = &self.pending[self.idx];
                Some(
                    Action::Copy {
                        src: join(src_sv.as_str(), name.as_str()),
                        dst: join(dst_sv.as_str(), name.as_str()),
                    },
                )
            },
            Stage::AcctCache => {
                let dst_root = account_root(&self.params, false);
                Some(Action::Remove { path: cache_path(dst_root.as_str()) })
            },
            Stage::CharFiles => {
                let name = char_file(self.idx);
                let src_root = char_root(&self.params, true);
                let dst_root = char_root(&self.params, false);
                Some(
                    Action::Copy {
                        src: join(src_root.as_str(), name.as_str()),
                        dst: join(dst_root.as_str(), name.as_str()),
                    },
                )
            },
            Stage::CharEnsure => {
                let dst_root = char_root(&self.params, false);
                Some(Action::Ensure { dir: savedvars_path(dst_root.as_str()) })
            },
            Stage::CharList => {
                let src_root = char_root(&self.params, true);
                Some(Action::List { dir: savedvars_path(src_root.as_str()) })
            },
            Stage::CharLua => {
                let src_root = char_root(&self.params, true);
                let dst_root = char_root(&self.params, false);
                let src_sv = savedvars_path(src_root.as_str());
                let dst_sv = savedvars_path(dst_root.as_str());
                let name = &self.pending[self.idx];
                Some(
                    Action::Copy {
                        src: join(src_sv.as_str(), name.as_str()),
                        dst: join(dst_sv.as_str(), name.as_str()),
                    },
                )
            },
            Stage::CharCache => {
                let dst_root = char_root(&self.params, false);
                Some(Action::Remove { path: cache_path(dst_root.as_str()) })
            },
            Stage::Done => None,
            Stage::Failed => None,
        }
    }

    /// Advance the run with the outcome of the action just performed.
    pub fn step(&mut self, ev: Event)
        requires
            old(self).wf(),
            !stage_is_terminal(old(self).stage),
            event_fits(old(self).stage, ev),
        ensures
            final(self).wf(),
            step_post(*old(self), ev, *final(self)),
    {
        match (self.stage, ev) {
            (Stage::AcctFiles, Event::Copied(res)) => {
                let name = account_file(self.idx);
                let src_root = account_root(&self.params, true);
                let src = join(src_root.as_str(), name.as_str());
                let line = match &res {
                    Ok(u) => copied_line_str(name.as_str()),
                    Err(e) => copy_err_line_str(src.as_str(), e.as_str()),
                };
                let ghost pre = self.log@;
                self.log.push(line);
                proof {
                    lemma_views_push(pre, line);
                }
                if self.idx == 3 {
                    self.idx = 0;
                    self.stage = Stage::AcctList;
                } else {
                    self.idx = self.idx + 1;
                }
            },
            (Stage::AcctList, Event::Listed(res)) => {
                match res {
                    Ok(names) => {
                        let filtered = lua_filter(names);
                        self.idx = 0;
                        if filtered.len() == 0 {
                            self.stage = Stage::AcctCache;
                        } else {
                            self.stage = Stage::AcctLua;
                        }
                        self.pending = filtered;
                    },
                    Err(e) => {
                        self.stage = Stage::Failed;
                        self.fatal = Some(e);
                    },
                }
            },
            (Stage::AcctLua, Event::Copied(res)) => {
                let src_root = account_root(&self.params, true);
                let src_sv = savedvars_path(src_root.as_str());
                let name = &self.pending[self.idx];
                let src = join(src_sv.as_str(), name.as_str());
                let line = match &res {
                    Ok(u) => copied_line_str(name.as_str()),
                    Err(e) => copy_err_line_str(src.as_str(), e.as_str()),
                };
                let ghost pre = self.log@;
                self.log.push(line);
                proof {
                    lemma_views_push(pre, line);
                }
                let n = self.pending.len();
                if self.idx + 1 == n {
                    self.idx = 0;
                    self.stage = Stage::AcctCache;
                } else {
                    self.idx = self.idx + 1;
                }
            },
            (Stage::AcctCache, Event::Removed(res)) => {
                let dst_root = account_root(&self.params, false);
                let path = cache_path(dst_root.as_str());
                let line = match &res {
                    Ok(u) => removed_line_str("cache.md5"),
                    Err(e) => remove_err_line_str(path.as_str(), e.as_str()),
                };
                let ghost pre = self.log@;
                self.log.push(line);
                proof {
                    lemma_views_push(pre, line);
                }
                self.idx = 0;
                self.stage = Stage::CharFiles;
            },
            (Stage::CharFiles, Event::Copied(res)) => {
                let name = char_file(self.idx);
                let dst_root = char_root(&self.params, false);
                let dst = join(dst_root.as_str(), name.as_str());
                let line = match &res {
                    Ok(u) => copied_line_str(name.as_str()),
                    Err(e) => copy_err_line_str(dst.as_str(), e.as_str()),
                };
                let ghost pre = self.log@;
                self.log.push(line);
                proof {
                    lemma_views_push(pre, line);
                }
                if self.idx == 4 {
                    self.idx = 0;
                    self.stage = Stage::CharEnsure;
                } else {
                    self.idx = self.idx + 1;
                }
            },
            (Stage::CharEnsure, Event::Ensured(res)) => {
                match res {
                    Ok(created) => {
                        if created {
                            let dst_root = char_root(&self.params, false);
                            let line = created_line_str(savedvars_path(dst_root.as_str()).as_str());
                            let ghost pre = self.log@;
                            self.log.push(line);
                            proof {
                                lemma_views_push(pre, line);
                            }
                        }
                        self.stage = Stage::CharList;
                    },
                    Err(e) => {
                        self.stage = Stage::Failed;
                        self.fatal = Some(e);
                    },
                }
            },
            (Stage::CharList, Event::Listed(res)) => {
                match res {
                    Ok(names) => {
                        let filtered = lua_filter(names);
                        self.idx = 0;
                        if filtered.len() == 0 {
                            self.stage = Stage::CharCache;
                        } else {
                            self.stage = Stage::CharLua;
                        }
                        self.pending = filtered;
                    },
                    Err(e) => {
                        self.stage = Stage::Failed;
                        self.fatal = Some(e);
                    },
                }
            },
            (Stage::CharLua, Event::Copied(res)) => {
                let dst_root = char_root(&self.params, false);
                let dst_sv = savedvars_path(dst_root.as_str());
                let name = &self.pending[self.idx];
                let dst = join(dst_sv.as_str(), name.as_str());
                let line = match &res {
                    Ok(u) => copied_line_str(name.as_str()),
                    Err(e) => copy_err_line_str(dst.as_str(), e.as_str()),
                };
                let ghost pre = self.log@;
                self.log.push(line);
                proof {
                    lemma_views_push(pre, line);
                }
                let n = self.pending.len();
                if self.idx + 1 == n {
                    self.idx = 0;
                    self.stage = Stage::CharCache;
                } else {
                    self.idx = self.idx + 1;
                }
            },
            (Stage::CharCache, Event::Removed(res)) => {
                let dst_root = char_root(&self.params, false);
                let path = cache_path(dst_root.as_str());
                let line = match &res {
                    Ok(u) => removed_line_str("cache.md5"),
                    Err(e) => remove_err_line_str(path.as_str(), e.as_str()),
                };
                let ghost pre = self.log@;
                self.log.push(line);
                proof {
                    lemma_views_push(pre, line);
                }
                self.stage = Stage::Done;
            },
            _ => {
                proof {
                    assert(false);
                }
            },
        }
    }

    /// The run's result so far: the complete log when every step ran,
    /// the fatal error alone when the run halted — never a partial log
    /// without that distinction.
    pub fn outcome(&self) -> (r: RunState)
        requires
            self.wf(),
        ensures
            match r {
                RunState::Running => !stage_is_terminal(self.stage),
                RunState::Finished(l) => self.stage is Done && views(l@) =~= views(self.log@),
                RunState::Failed(m) => self.stage is Failed && self.fatal is Some && m@ == self.fatal->0@,
            },
    {
        match self.stage {
            Stage::Done => RunState::Finished(clone_lines(&self.log)),
            Stage::Failed => {
                match &self.fatal {
                    Some(m) => RunState::Failed(m.clone()),
                    None => {
                        proof {
                            assert(false);
                        }
                        RunState::Running
                    },
                }
            },
            _ => RunState::Running,
        }
    }
}

/// Whether an action touches only the character roots: reads under the
/// source character root, writes under the destination character root.
pub open spec fn char_scoped_action(p: CopyParams, a: Action) -> bool {
    match a {
        Action::Copy { src, dst } => char_root_of(p, true).is_prefix_of(src@) && char_root_of(
            p,
            false,
        ).is_prefix_of(dst@),
        Action::List { dir } => char_root_of(p, true).is_prefix_of(dir@),
        Action::Ensure { dir } => char_root_of(p, false).is_prefix_of(dir@),
        Action::Remove { path } => char_root_of(p, false).is_prefix_of(path@),
    }
}

proof fn lemma_jv_prefix(a: Seq<char>, b: Seq<char>)
    ensures
        a.is_prefix_of(jv(a, b)),
{
    assert(jv(a, b).subrange(0, a.len() as int) =~= a);
}

proof fn lemma_prefix_trans(a: Seq<char>, b: Seq<char>, c: Seq<char>)
    requires
        a.is_prefix_of(b),
        b.is_prefix_of(c),
    ensures
        a.is_prefix_of(c),
{
    assert(c.subrange(0, a.len() as int) =~= a);
}

/// Law: with the same account on both sides, or with overwriting
/// disabled, a fresh run has produced exactly one log line — the skip
/// line — and stands past the account-level step.
pub proof fn lemma_skip_account(e: Engine)
    requires
        start_post(e),
        skip_account(e.params),
    ensures
        views(e.log@) =~= seq![skip_line()],
        e.stage is CharFiles,
        stage_is_character(e.stage),
{
}

/// Law: once the run stands in a character-level stage (or is over), no
/// transition re-enters an account-level stage, so no further
/// account-scoped action is ever requested.
pub proof fn lemma_character_stage_closed(pre: Engine, ev: Event, post: Engine)
    requires
        step_post(pre, ev, post),
        stage_is_character(pre.stage) || stage_is_terminal(pre.stage),
    ensures
        stage_is_character(post.stage) || stage_is_terminal(post.stage),
        !stage_is_account(post.stage),
{
}

/// Law: every action of a character-level stage touches only the
/// character roots — the account-scoped files of both sides stay as
/// they are.
pub proof fn lemma_character_actions_scoped(e: Engine, a: Action)
    requires
        e.wf(),
        stage_is_character(e.stage),
        e.expected_action(a),
    ensures
        char_scoped_action(e.params, a),
{
    let p = e.params;
    let src_cr = char_root_of(p, true);
    let dst_cr = char_root_of(p, false);
    match e.stage {
        Stage::CharFiles => {
            lemma_jv_prefix(src_cr, char_catalog()[e.idx as int]);
            lemma_jv_prefix(dst_cr, char_catalog()[e.idx as int]);
        },
        Stage::CharEnsure => {
            lemma_jv_prefix(dst_cr, "SavedVariables"@);
        },
        Stage::CharList => {
            lemma_jv_prefix(src_cr, "SavedVariables"@);
        },
        Stage::CharLua => {
            let name = e.pending@[e.idx as int]@;
            lemma_jv_prefix(src_cr, "SavedVariables"@);
            lemma_jv_prefix(savedvars_of(src_cr), name);
            lemma_prefix_trans(src_cr, savedvars_of(src_cr), jv(savedvars_of(src_cr), name));
            lemma_jv_prefix(dst_cr, "SavedVariables"@);
            lemma_jv_prefix(savedvars_of(dst_cr), name);
            lemma_prefix_trans(dst_cr, savedvars_of(dst_cr), jv(savedvars_of(dst_cr), name));
        },
        Stage::CharCache => {
            lemma_jv_prefix(dst_cr, "cache.md5"@);
        },
        _ => {
        },
    }
}

/// Law: the log is append-only — each step keeps everything already
/// logged and at most adds one line at the end.
pub proof fn lemma_log_append_only(pre: Engine, ev: Event, post: Engine)
    requires
        step_post(pre, ev, post),
    ensures
        views(pre.log@).is_prefix_of(views(post.log@)),
{
    let lv = views(pre.log@);
    if post.log == pre.log {
    } else {
        assert(views(post.log@).subrange(0, lv.len() as int) =~= lv) by {
            match (pre.stage, ev) {
                (Stage::AcctFiles, Event::Copied(res)) => {},
                (Stage::AcctList, Event::Listed(res)) => {},
                (Stage::AcctLua, Event::Copied(res)) => {},
                (Stage::AcctCache, Event::Removed(res)) => {},
                (Stage::CharFiles, Event::Copied(res)) => {},
                (Stage::CharEnsure, Event::Ensured(res)) => {},
                (Stage::CharList, Event::Listed(res)) => {},
                (Stage::CharLua, Event::Copied(res)) => {},
                (Stage::CharCache, Event::Removed(res)) => {},
                _ => {},
            }
        }
    }
}

/// Law: one file's copy failure never stops the run. After a failed
/// copy the engine stands exactly where it would after a successful
/// one — same stage, same index — and either way the log has grown by
/// exactly the one line for that file.
pub proof fn lemma_per_file_independence(
    pre: Engine,
    err: String,
    post_ok: Engine,
    post_err: Engine,
)
    requires
        matches!(pre.stage, Stage::AcctFiles | Stage::AcctLua | Stage::CharFiles | Stage::CharLua),
        step_post(pre, Event::Copied(Ok(())), post_ok),
        step_post(pre, Event::Copied(Err(err)), post_err),
    ensures
        post_ok.stage == post_err.stage,
        post_ok.idx == post_err.idx,
        views(post_ok.log@).len() == views(pre.log@).len() + 1,
        views(post_err.log@).len() == views(pre.log@).len() + 1,
{
}

/// Law: after a saved-variables listing is taken in, what remains to be
/// copied is exactly the listing's `.lua` names — every pending name
/// carries the `.lua` extension, and there are no more of them than the
/// listing held.
pub proof fn lemma_pending_are_lua_names(pre: Engine, names: Vec<String>, post: Engine)
    requires
        matches!(pre.stage, Stage::AcctList | Stage::CharList),
        step_post(pre, Event::Listed(Ok(names)), post),
    ensures
        forall|k: int|
            0 <= k < post.pending@.len() ==> is_lua_name(#[trigger] views(post.pending@)[k]),
        post.pending@.len() <= names@.len(),
{
    let nv = views(names@);
    assert forall|k: int|
        0 <= k < post.pending@.len() implies is_lua_name(#[trigger] views(post.pending@)[k]) by {
        nv.lemma_filter_pred(lua_pred(), k);
    }
    nv.lemma_filter_len(lua_pred());
}

/// Law: a failure to list a saved-variables directory is fatal — the
/// run halts with that error as its outcome, and nothing more is
/// logged.
pub proof fn lemma_listing_failure_fatal(pre: Engine, err: String, post: Engine)
    requires
        matches!(pre.stage, Stage::AcctList | Stage::CharList),
        step_post(pre, Event::Listed(Err(err)), post),
    ensures
        post.stage is Failed,
        post.fatal == Some(err),
        post.log == pre.log,
{
}

/// Copies a log so the caller can keep it.
pub fn clone_lines(l: &Vec<String>) -> (r: Vec<String>)
    ensures
        views(r@) =~= views(l@),
{
    let mut r: Vec<String> = Vec::new();
    let mut i: usize = 0;
    while i < l.len()
        invariant
            i <= l.len(),
            views(r@) =~= views(l@).take(i as int),
        decreases l.len() - i,
    {
        let ghost pre = r@;
        let s = l[i].clone();
        r.push(s);
        proof {
            lemma_views_push(pre, s);
            assert(views(r@) =~= views(l@).take(i as int + 1));
        }
        i += 1;
    }
    proof {
        assert(views(l@).take(l@.len() as int) =~= views(l@));
    }
    r
}

} // verus!
