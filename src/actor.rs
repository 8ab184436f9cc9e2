use vstd::prelude::*;

use crate::hub::Event;
use crate::project::{
    lemma_patch_preserves_well_formed, patched, well_formed, Project, ProjectModel, SoundPatch,
};

verus! {

/// A request to the document's owner.
#[derive(Debug)]
pub enum ProjectMessage {
    GetProject,
    PatchSoundVolume { scene_id: String, sound_id: String, volume: u32 },
    PatchSoundLooped { scene_id: String, sound_id: String, looped: bool },
}

/// What the owner hands back for a request it served.
#[derive(Debug)]
pub enum Reply {
    /// A copy of the document, for a read.
    Snapshot(Project),
    /// A copy of the document after a patch: it is to be written to the store
    /// and broadcast to the presentation layer, whether or not it changed.
    Updated(Project),
}

/// Why a request got no answer.
#[derive(Clone, Copy, Debug, PartialEq, Eq, Structural)]
pub enum ActorError {
    /// The owner was torn down before it could answer.
    ReplyChannelClosed,
}

/// The document after the owner serves `m`.
pub open spec fn step(doc: ProjectModel, m: ProjectMessage) -> ProjectModel {
    match m {
        ProjectMessage::GetProject => doc,
        ProjectMessage::PatchSoundVolume { scene_id, sound_id, volume } => patched(
            doc,
            scene_id@,
            sound_id@,
            SoundPatch::Volume(volume),
        ),
        ProjectMessage::PatchSoundLooped { scene_id, sound_id, looped } => patched(
            doc,
            scene_id@,
            sound_id@,
            SoundPatch::Looped(looped),
        ),
    }
}

/// The document after the owner serves `msgs`, first to last.
pub open spec fn replay(doc: ProjectModel, msgs: Seq<ProjectMessage>) -> ProjectModel
    decreases msgs.len(),
{
    if msgs.len() == 0 {
        doc
    } else {
        step(replay(doc, msgs.drop_last()), msgs.last())
    }
}

/// The reply owed to `m` when the document stood at `before` and, once `m`
/// was served, at `after`.
pub open spec fn answers(r: Result<Reply, ActorError>, m: ProjectMessage, before: ProjectModel, after: ProjectModel) -> bool {
    match r {
        Ok(Reply::Snapshot(p)) => m is GetProject && p@ == before,
        Ok(Reply::Updated(p)) => !(m is GetProject) && p@ == after,
        Err(_) => false,
    }
}

/// The owner's state: its document, and whether it still serves requests.
pub struct ActorView {
    pub document: ProjectModel,
    pub running: bool,
}

/// The sole owner of the document. It serves requests one at a time, in the
/// order they arrive, so every read sees every write made before it.
pub struct ProjectActor {
    project: Project,
    running: bool,
}

impl View for ProjectActor {
    type V = ActorView;

    closed spec fn view(&self) -> ActorView {
        ActorView { document: self.project@, running: self.running }
    }
}

impl ProjectActor {
    /// Takes ownership of a loaded document, ready to serve.
    pub fn new(project: Project) -> (r: Self)
        requires
            well_formed(project@),
        ensures
            r@.document == project@,
            r@.running,
            well_formed(r@.document),
    {
        ProjectActor { project, running: true }
    }

    pub fn is_running(&self) -> (r: bool)
        ensures
            r == self@.running,
    {
        self.running
    }

    /// A copy of the current document; fails once the owner is torn down.
    pub fn get_project(&self) -> (r: Result<Project, ActorError>)
        ensures
            self@.running ==> (r matches Ok(p) && p@ == self@.document),
            !self@.running ==> r == Err::<Project, ActorError>(ActorError::ReplyChannelClosed),
    {
        if !self.running {
            return Err(ActorError::ReplyChannelClosed);
        }
        Ok(self.project.snapshot())
    }

    /// Ends the owner and hands back the document it held.
    pub fn into_project(self) -> (r: Project)
        ensures
            r@ == self@.document,
    {
        self.project
    }

    /// Tears the owner down: from now on every request fails.
    pub fn shutdown(&mut self)
        requires
            well_formed(old(self)@.document),
        ensures
            final(self)@.document == old(self)@.document,
            !final(self)@.running,
            well_formed(final(self)@.document),
    {
        self.running = false;
    }

    /// Applies `p` to the sound `sound_id` of the scene `scene_id` and returns
    /// a copy of the document, whether or not an id matched; fails once the
    /// owner is torn down.
    fn patch(&mut self, scene_id: &String, sound_id: &String, p: SoundPatch) -> (r: Result<Project, ActorError>)
        requires
            well_formed(old(self)@.document),
        ensures
            final(self)@.running == old(self)@.running,
            well_formed(final(self)@.document),
            !old(self)@.running ==> r == Err::<Project, ActorError>(ActorError::ReplyChannelClosed)
                && final(self)@ == old(self)@,
            old(self)@.running ==> final(self)@.document == patched(old(self)@.document, scene_id@, sound_id@, p)
                && (r matches Ok(q) && q@ == final(self)@.document),
    {
        if !self.running {
            return Err(ActorError::ReplyChannelClosed);
        }
        proof {
            lemma_patch_preserves_well_formed(self.project@, scene_id@, sound_id@, p);
        }
        self.project.patch_sound(scene_id, sound_id, p);
        Ok(self.project.snapshot())
    }

    /// Sets the volume of the sound `sound_id` of the scene `scene_id`.
    pub fn patch_sound_volume(&mut self, scene_id: &String, sound_id: &String, volume: u32) -> (r: Result<Event, ActorError>)
        requires
            well_formed(old(self)@.document),
        ensures
            final(self)@.running == old(self)@.running,
            well_formed(final(self)@.document),
            !old(self)@.running ==> r == Err::<Event, ActorError>(ActorError::ReplyChannelClosed)
                && final(self)@ == old(self)@,
            old(self)@.running ==> final(self)@.document == patched(
                old(self)@.document,
                scene_id@,
                sound_id@,
                SoundPatch::Volume(volume),
            ) && (r matches Ok(Event::Project { project }) && project@ == final(self)@.document),
    {
        match self.patch(scene_id, sound_id, SoundPatch::Volume(volume)) {
            Ok(project) => Ok(Event::Project { project }),
            Err(e) => Err(e),
        }
    }

    /// Sets whether the sound `sound_id` of the scene `scene_id` loops.
    pub fn patch_sound_looped(&mut self, scene_id: &String, sound_id: &String, looped: bool) -> (r: Result<Event, ActorError>)
        requires
            well_formed(old(self)@.document),
        ensures
            final(self)@.running == old(self)@.running,
            well_formed(final(self)@.document),
            !old(self)@.running ==> r == Err::<Event, ActorError>(ActorError::ReplyChannelClosed)
                && final(self)@ == old(self)@,
            old(self)@.running ==> final(self)@.document == patched(
                old(self)@.document,
                scene_id@,
                sound_id@,
                SoundPatch::Looped(looped),
            ) && (r matches Ok(Event::Project { project }) && project@ == final(self)@.document),
    {
        match self.patch(scene_id, sound_id, SoundPatch::Looped(looped)) {
            Ok(project) => Ok(Event::Project { project }),
            Err(e) => Err(e),
        }
    }

    /// Serves one request. A patch whose ids match nothing leaves the document
    /// as it is and is still answered with `Updated`.
    pub fn handle(&mut self, m: ProjectMessage) -> (r: Result<Reply, ActorError>)
        requires
            well_formed(old(self)@.document),
        ensures
            !old(self)@.running ==> r == Err::<Reply, ActorError>(ActorError::ReplyChannelClosed)
                && final(self)@ == old(self)@,
            old(self)@.running ==> final(self)@.running
                && final(self)@.document == step(old(self)@.document, m)
                && answers(r, m, old(self)@.document, final(self)@.document),
            well_formed(final(self)@.document),
    {
        if !self.running {
            return Err(ActorError::ReplyChannelClosed);
        }
        match m {
            ProjectMessage::GetProject => match self.get_project() {
                Ok(p) => Ok(Reply::Snapshot(p)),
                Err(e) => Err(e),
            },
            ProjectMessage::PatchSoundVolume { scene_id, sound_id, volume } => {
                match self.patch(&scene_id, &sound_id, SoundPatch::Volume(volume)) {
                    Ok(p) => Ok(Reply::Updated(p)),
                    Err(e) => Err(e),
                }
            },
            ProjectMessage::PatchSoundLooped { scene_id, sound_id, looped } => {
                match self.patch(&scene_id, &sound_id, SoundPatch::Looped(looped)) {
                    Ok(p) => Ok(Reply::Updated(p)),
                    Err(e) => Err(e),
                }
            },
        }
    }

    /// Serves `msgs` in order. Each reply is the one owed at its place in the
    /// sequence, and the document ends as every request applied in turn; once
    /// torn down, the owner fails every request and keeps the document.
    pub fn serve_all(&mut self, msgs: Vec<ProjectMessage>) -> (r: Vec<Result<Reply, ActorError>>)
        requires
            well_formed(old(self)@.document),
        ensures
            r@.len() == msgs@.len(),
            final(self)@.running == old(self)@.running,
            well_formed(final(self)@.document),
            old(self)@.running ==> final(self)@.document == replay(old(self)@.document, msgs@),
            old(self)@.running ==> forall|i: int|
                0 <= i < msgs@.len() ==> answers(
                    #[trigger] r@[i],
                    msgs@[i],
                    replay(old(self)@.document, msgs@.take(i)),
                    replay(old(self)@.document, msgs@.take(i + 1)),
                ),
            !old(self)@.running ==> final(self)@ == old(self)@ && forall|i: int|
                0 <= i < msgs@.len() ==> #[trigger] r@[i] == Err::<Reply, ActorError>(
                    ActorError::ReplyChannelClosed,
                ),
    {
        let ghost d0 = self@.document;
        let ghost all = msgs@;
        let ghost running = self@.running;
        let mut rest = msgs;
        let total: usize = rest.len();
        let mut out: Vec<Result<Reply, ActorError>> = Vec::new();
        let mut k: usize = 0;
        while rest.len() > 0
            invariant
                k <= all.len(),
                all.len() == total,
                rest@ == all.skip(k as int),
                out@.len() == k,
                self@.running == running,
                running == old(self)@.running,
                well_formed(self@.document),
                d0 == old(self)@.document,
                running ==> self@.document == replay(d0, all.take(k as int)),
                running ==> forall|i: int|
                    0 <= i < k ==> answers(
                        #[trigger] out@[i],
                        all[i],
                        replay(d0, all.take(i)),
                        replay(d0, all.take(i + 1)),
                    ),
                !running ==> self@ == old(self)@,
                !running ==> forall|i: int|
                    0 <= i < k ==> #[trigger] out@[i] == Err::<Reply, ActorError>(
                        ActorError::ReplyChannelClosed,
                    ),
            decreases rest.len(),
        {
            let m = rest.remove(0);
            assert(m == all[k as int]);
            assert(all.take(k + 1).drop_last() =~= all.take(k as int));
            let r = self.handle(m);
            out.push(r);
            k = k + 1;
        }
        assert(all.take(k as int) =~= all);
        out
    }
}

} // verus!
