//! A run that publishes adapted contents to their platforms, one target
//! after another: the decisions of executing a task and of publishing a
//! draft.
//!
//! The caller performs each action the run asks for (look up the stored
//! cookies, find the platform's publisher, publish) and reports what came
//! of it. A run for a task keeps the contents it could not publish for a
//! draft; a run for a draft only publishes the platform asked for.
use crate::draft::{failed_publish_result, lowercase_name, platform_selected};
use crate::error::AppError;
use crate::publish::error::PublishError;
use crate::text::{push_str, string_of};
use crate::types::{ArticleContent, Platform, PlatformCredential, PublishResult};
use vstd::prelude::*;

verus! {

broadcast use vstd::string::group_string_axioms;

/// What the run waits for.
#[derive(Debug, Clone, Copy, PartialEq, Eq, Structural)]
pub enum RunPhase {
    /// Nothing: ask for the next action.
    Ready,
    /// The stored cookies of the current target's platform.
    Config,
    /// Whether the current target's platform has a publisher.
    Publisher,
    /// The outcome of publishing the current target.
    Publish,
    /// Nothing more: every target is done.
    Finished,
}

/// What the caller does next.
#[derive(Debug)]
pub enum RunAction {
    /// Look up the stored cookies of the platform.
    LookupConfig(Platform),
    /// Look up the platform's publisher.
    LookupPublisher(Platform),
    /// Publish the article with the credential.
    Publish(PlatformCredential, ArticleContent),
    /// Stop the run with this error.
    Abort(AppError),
    /// The run is over.
    Done,
}

/// A publishing run over the adapted contents `targets`.
pub struct PublishRun {
    for_task: bool,
    filter: Option<String>,
    topic: String,
    images: Vec<String>,
    targets: Vec<(Platform, String)>,
    index: usize,
    cookies: String,
    phase: RunPhase,
    results: Vec<PublishResult>,
    unconnected: Vec<(Platform, String)>,
}

/// The warning of a task run that published nothing and kept contents.
pub open spec fn task_warning_text() -> Seq<char> {
    "所有目标平台均未连接登录，内容已保存到草稿箱"@
}

/// The outcome of a run.
#[derive(Debug)]
pub struct RunSummary {
    /// What each publication ended in, in target order.
    pub publish_results: Vec<PublishResult>,
    /// The contents of a task run that found no connected platform.
    pub unconnected: Vec<(Platform, String)>,
    /// The kept contents go to a draft.
    pub saved_to_draft: bool,
    /// The warning to show, if any.
    pub warning: Option<String>,
}

fn clone_strings(v: &Vec<String>) -> (r: Vec<String>)
    ensures
        r@ == v@,
{
    let mut out: Vec<String> = Vec::new();
    let mut i: usize = 0;
    while i < v.len()
        invariant
            i <= v.len(),
            out@ == v@.take(i as int),
        decreases v.len() - i,
    {
        out.push(v[i].clone());
        assert(out@ =~= v@.take(i + 1));
        i = i + 1;
    }
    assert(v@.take(v.len() as int) =~= v@);
    out
}

impl PublishRun {
    /// The adapted contents, by platform.
    pub closed spec fn targets(self) -> Seq<(Platform, String)> {
        self.targets@
    }

    /// How many targets are done.
    pub closed spec fn done(self) -> nat {
        self.index as nat
    }

    /// What the run waits for.
    pub closed spec fn phase(self) -> RunPhase {
        self.phase
    }

    /// The publications so far.
    pub closed spec fn results(self) -> Seq<PublishResult> {
        self.results@
    }

    /// The contents kept for a draft so far.
    pub closed spec fn unconnected(self) -> Seq<(Platform, String)> {
        self.unconnected@
    }

    /// The run is for a task (else for a draft).
    pub closed spec fn for_task(self) -> bool {
        self.for_task
    }

    /// The platform asked for, for a draft run.
    pub closed spec fn filter(self) -> Option<Seq<char>> {
        match self.filter {
            Some(f) => Some(f@),
            None => None,
        }
    }

    /// The article title and topic.
    pub closed spec fn topic(self) -> Seq<char> {
        self.topic@
    }

    /// The images attached to each article.
    pub closed spec fn images(self) -> Seq<String> {
        self.images@
    }

    /// The cookies found for the current target.
    pub closed spec fn cookies(self) -> Seq<char> {
        self.cookies@
    }

    /// The target at `i` takes part in the run.
    pub open spec fn selected(self, i: int) -> bool {
        match self.filter() {
            None => true,
            Some(name) => name == lowercase_name(self.targets()[i].0),
        }
    }

    /// The run is consistent: it waits on a target that takes part, or
    /// is between targets, or over.
    pub closed spec fn wf(self) -> bool {
        &&& self.index <= self.targets@.len()
        &&& (self.for_task ==> self.filter.is_none())
        &&& (self.phase == RunPhase::Finished <==> self.index == self.targets@.len())
        &&& (self.phase == RunPhase::Config || self.phase == RunPhase::Publisher || self.phase
            == RunPhase::Publish) ==> self.index < self.targets@.len() && self.selected(
            self.index as int,
        )
        &&& self.results@.len() + self.unconnected@.len() <= self.index
        &&& self.for_task ==> self.results@.len() + self.unconnected@.len() == self.index
    }

    /// A finished task run accounts for every target: each was either
    /// published (successfully or not) or kept for the draft.
    pub proof fn lemma_task_run_accounts_for_every_target(self)
        requires
            self.wf(),
            self.for_task(),
            self.phase() == RunPhase::Finished,
        ensures
            self.results().len() + self.unconnected().len() == self.targets().len(),
    {
    }

    /// A run over `targets`: for a task (all platforms, unpublished
    /// contents kept), or for a draft (only the platform `filter` names,
    /// if any).
    pub fn new(
        for_task: bool,
        filter: Option<String>,
        topic: String,
        images: Vec<String>,
        targets: Vec<(Platform, String)>,
    ) -> (r: PublishRun)
        requires
            for_task ==> filter.is_none(),
        ensures
            r.wf(),
            r.for_task() == for_task,
            r.filter() == (match filter {
                Some(f) => Some(f@),
                None => None::<Seq<char>>,
            }),
            r.topic() == topic@,
            r.images() == images@,
            r.targets() == targets@,
            r.done() == 0,
            r.results().len() == 0,
            r.unconnected().len() == 0,
            targets@.len() > 0 ==> r.phase() == RunPhase::Ready,
            targets@.len() == 0 ==> r.phase() == RunPhase::Finished,
    {
        let phase = if targets.len() == 0 {
            RunPhase::Finished
        } else {
            RunPhase::Ready
        };
        PublishRun {
            for_task,
            filter,
            topic,
            images,
            targets,
            index: 0,
            cookies: String::new(),
            phase,
            results: Vec::new(),
            unconnected: Vec::new(),
        }
    }

    fn current_selected(&self) -> (r: bool)
        requires
            self.index < self.targets@.len(),
        ensures
            r == self.selected(self.index as int),
    {
        match &self.filter {
            None => true,
            Some(f) => platform_selected(Some(f.as_str()), self.targets[self.index].0),
        }
    }

    /// Moves to the next target that takes part and asks for its cookies;
    /// the run is over when there is none.
    pub fn next_action(&mut self) -> (r: RunAction)
        requires
            old(self).wf(),
            old(self).phase() == RunPhase::Ready || old(self).phase() == RunPhase::Finished,
        ensures
            final(self).wf(),
            final(self).results() == old(self).results(),
            final(self).unconnected() == old(self).unconnected(),
            final(self).targets() == old(self).targets(),
            final(self).for_task() == old(self).for_task(),
            final(self).filter() == old(self).filter(),
            final(self).topic() == old(self).topic(),
            final(self).images() == old(self).images(),
            old(self).done() <= final(self).done(),
            forall|i: int| old(self).done() <= i < final(self).done() ==> !old(self).selected(i),
            match r {
                RunAction::LookupConfig(p) => final(self).phase() == RunPhase::Config && final(self).done() < final(self).targets().len() && p == final(self).targets()[final(self).done() as int].0,
                RunAction::Done => final(self).phase() == RunPhase::Finished && final(self).done()
                    == final(self).targets().len(),
                _ => false,
            },
    {
        while self.index < self.targets.len() && !self.current_selected()
            invariant
                self.index <= self.targets@.len(),
                self.for_task == old(self).for_task,
                self.filter == old(self).filter,
                self.targets == old(self).targets,
                self.topic == old(self).topic,
                self.images == old(self).images,
                self.results == old(self).results,
                self.unconnected == old(self).unconnected,
                self.phase == old(self).phase,
                self.cookies == old(self).cookies,
                old(self).index <= self.index,
                old(self).wf(),
                self.for_task ==> self.index == old(self).index,
                forall|i: int| old(self).index <= i < self.index ==> !old(self).selected(i),
            decreases self.targets@.len() - self.index,
        {
            self.index = self.index + 1;
        }
        if self.index == self.targets.len() {
            self.phase = RunPhase::Finished;
            RunAction::Done
        } else {
            self.phase = RunPhase::Config;
            RunAction::LookupConfig(self.targets[self.index].0)
        }
    }

    fn skip_current(&mut self)
        requires
            old(self).wf(),
            old(self).index < old(self).targets@.len(),
        ensures
            final(self).index == old(self).index + 1,
            final(self).results == old(self).results,
            final(self).targets == old(self).targets,
            final(self).for_task == old(self).for_task,
            final(self).filter == old(self).filter,
            final(self).topic == old(self).topic,
            final(self).images == old(self).images,
            old(self).for_task ==> final(self).unconnected@ == old(self).unconnected@.push(
                old(self).targets@[old(self).index as int],
            ),
            !old(self).for_task ==> final(self).unconnected@ == old(self).unconnected@,
            final(self).phase == (if final(self).index == final(self).targets@.len() {
                RunPhase::Finished
            } else {
                RunPhase::Ready
            }),
            final(self).wf(),
    {
        if self.for_task {
            let p = self.targets[self.index].0;
            let content = self.targets[self.index].1.clone();
            self.unconnected.push((p, content));
            assert(self.unconnected@.last() == old(self).targets@[old(self).index as int]);
        }
        assert(self.index < self.targets.len());
        self.index = self.index + 1;
        self.phase = if self.index == self.targets.len() {
            RunPhase::Finished
        } else {
            RunPhase::Ready
        };
    }

    /// The stored cookies of the current target's platform came back
    /// (`None`: none stored): without cookies the target is passed over
    /// (kept for the draft of a task), else its publisher is looked up.
    pub fn on_config(&mut self, cookies: Option<String>) -> (r: RunAction)
        requires
            old(self).wf(),
            old(self).phase() == RunPhase::Config,
        ensures
            final(self).wf(),
            final(self).results() == old(self).results(),
            final(self).targets() == old(self).targets(),
            final(self).for_task() == old(self).for_task(),
            final(self).filter() == old(self).filter(),
            final(self).topic() == old(self).topic(),
            final(self).images() == old(self).images(),
            match cookies {
                Some(c) => final(self).phase() == RunPhase::Publisher && final(self).done() == old(self).done() && final(self).cookies() == c@ && final(self).unconnected() == old(self).unconnected() && r == RunAction::LookupPublisher(
                    old(self).targets()[old(self).done() as int].0,
                ),
                None => final(self).done() == old(self).done() + 1 && (old(self).for_task() ==> final(self).unconnected() == old(self).unconnected().push(
                    old(self).targets()[old(self).done() as int],
                )) && (!old(self).for_task() ==> final(self).unconnected() == old(self).unconnected()) && (final(self).phase() == RunPhase::Ready || final(self).phase()
                    == RunPhase::Finished) && r == RunAction::Done,
            },
    {
        match cookies {
            Some(c) => {
                self.cookies = c;
                self.phase = RunPhase::Publisher;
                RunAction::LookupPublisher(self.targets[self.index].0)
            },
            None => {
                self.skip_current();
                RunAction::Done
            },
        }
    }

    /// Looking up the cookies failed: a task passes the target over (and
    /// keeps it for its draft); a draft stops with the error.
    pub fn on_config_error(&mut self, e: AppError) -> (r: RunAction)
        requires
            old(self).wf(),
            old(self).phase() == RunPhase::Config,
        ensures
            final(self).wf(),
            final(self).results() == old(self).results(),
            final(self).targets() == old(self).targets(),
            final(self).for_task() == old(self).for_task(),
            final(self).filter() == old(self).filter(),
            final(self).topic() == old(self).topic(),
            final(self).images() == old(self).images(),
            old(self).for_task() ==> final(self).done() == old(self).done() + 1 && final(self).unconnected() == old(self).unconnected().push(
                old(self).targets()[old(self).done() as int],
            ) && (final(self).phase() == RunPhase::Ready || final(self).phase()
                == RunPhase::Finished) && r == RunAction::Done,
            !old(self).for_task() ==> final(self).phase() == RunPhase::Finished && final(self).unconnected() == old(self).unconnected() && r == RunAction::Abort(e),
    {
        if self.for_task {
            self.skip_current();
            RunAction::Done
        } else {
            self.index = self.targets.len();
            self.phase = RunPhase::Finished;
            RunAction::Abort(e)
        }
    }

    /// Whether the current target's platform has a publisher: without one
    /// the target is passed over (kept for the draft of a task), else the
    /// article is published with the stored cookies.
    pub fn on_publisher(&mut self, available: bool) -> (r: RunAction)
        requires
            old(self).wf(),
            old(self).phase() == RunPhase::Publisher,
        ensures
            final(self).wf(),
            final(self).results() == old(self).results(),
            final(self).targets() == old(self).targets(),
            final(self).for_task() == old(self).for_task(),
            final(self).filter() == old(self).filter(),
            final(self).topic() == old(self).topic(),
            final(self).images() == old(self).images(),
            available ==> final(self).phase() == RunPhase::Publish && final(self).done() == old(self).done() && final(self).unconnected() == old(self).unconnected() && (r matches RunAction::Publish(
                cred,
                art,
            ) && cred.platform == old(self).targets()[old(self).done() as int].0 && cred.cookies@
                == old(self).cookies() && cred.extra@.len() == 0 && art.title@ == old(self).topic()
                && art.body == old(self).targets()[old(self).done() as int].1 && art.image_urls@
                == old(self).images() && art.tags@.len() == 0 && (art.topic matches Some(t) && t@
                == old(self).topic())),
            !available ==> final(self).done() == old(self).done() + 1 && (old(self).for_task() ==> final(self).unconnected() == old(self).unconnected().push(
                old(self).targets()[old(self).done() as int],
            )) && (!old(self).for_task() ==> final(self).unconnected() == old(self).unconnected()) && (final(self).phase() == RunPhase::Ready || final(self).phase()
                == RunPhase::Finished) && r == RunAction::Done,
    {
        if !available {
            self.skip_current();
            return RunAction::Done;
        }
        let p = self.targets[self.index].0;
        let cred = PlatformCredential { platform: p, cookies: self.cookies.clone(), extra: Vec::new() };
        let art = ArticleContent {
            title: self.topic.clone(),
            body: self.targets[self.index].1.clone(),
            image_urls: clone_strings(&self.images),
            tags: Vec::new(),
            topic: Some(self.topic.clone()),
        };
        self.phase = RunPhase::Publish;
        RunAction::Publish(cred, art)
    }

    /// What publishing the current target ended in: the platform's result,
    /// or a failure record with the error's text.
    pub fn on_published(&mut self, outcome: Result<PublishResult, PublishError>) -> (r: RunAction)
        requires
            old(self).wf(),
            old(self).phase() == RunPhase::Publish,
        ensures
            final(self).wf(),
            final(self).targets() == old(self).targets(),
            final(self).for_task() == old(self).for_task(),
            final(self).filter() == old(self).filter(),
            final(self).topic() == old(self).topic(),
            final(self).images() == old(self).images(),
            final(self).done() == old(self).done() + 1,
            final(self).unconnected() == old(self).unconnected(),
            final(self).results().len() == old(self).results().len() + 1,
            final(self).results().drop_last() == old(self).results(),
            match outcome {
                Ok(res) => final(self).results().last() == res,
                Err(e) => {
                    let f = final(self).results().last();
                    &&& f.platform == old(self).targets()[old(self).done() as int].0
                    &&& !f.success
                    &&& f.post_id.is_none()
                    &&& f.post_url.is_none()
                    &&& f.error_code matches Some(c) && c@ == "PUBLISH_ERROR"@
                    &&& f.error_message matches Some(m) && m@ == e.display_text()
                },
            },
            final(self).phase() == RunPhase::Ready || final(self).phase() == RunPhase::Finished,
            r == RunAction::Done,
    {
        let p = self.targets[self.index].0;
        let res = match outcome {
            Ok(res) => res,
            Err(e) => failed_publish_result(p, e.to_display_string()),
        };
        let ghost before = self.results@;
        self.results.push(res);
        assert(self.results@.drop_last() =~= before);
        assert(self.index < self.targets.len());
        self.index = self.index + 1;
        self.phase = if self.index == self.targets.len() {
            RunPhase::Finished
        } else {
            RunPhase::Ready
        };
        RunAction::Done
    }

    /// What the run ended in. A task run keeps its unpublished contents
    /// for a draft and warns when it published nothing; a draft run warns
    /// when the draft had contents and nothing was published.
    pub fn finish(self) -> (r: RunSummary)
        requires
            self.wf(),
            self.phase() == RunPhase::Finished,
        ensures
            r.publish_results@ == self.results(),
            r.unconnected@ == self.unconnected(),
            r.saved_to_draft == (self.for_task() && self.unconnected().len() > 0),
            self.for_task() ==> (match r.warning {
                Some(w) => self.results().len() == 0 && self.unconnected().len() > 0 && w@
                    == task_warning_text(),
                None => !(self.results().len() == 0 && self.unconnected().len() > 0),
            }),
            !self.for_task() ==> (match r.warning {
                Some(w) => self.results().len() == 0 && self.targets().len() > 0 && w@
                    == "所选平台均未连接登录，请先在平台管理中连接平台"@,
                None => !(self.results().len() == 0 && self.targets().len() > 0),
            }),
    {
        let saved = self.for_task && self.unconnected.len() > 0;
        let warning = if self.for_task {
            if self.results.len() == 0 && self.unconnected.len() > 0 {
                Some("所有目标平台均未连接登录，内容已保存到草稿箱".to_owned())
            } else {
                None
            }
        } else {
            crate::draft::draft_publish_warning(self.results.len(), self.targets.len())
        };
        RunSummary {
            publish_results: self.results,
            unconnected: self.unconnected,
            saved_to_draft: saved,
            warning,
        }
    }
}

} // verus!
