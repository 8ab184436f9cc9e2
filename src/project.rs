use vstd::prelude::*;

verus! {

/// The category of a sound instance.
#[derive(Clone, Copy, Debug, PartialEq, Eq, Structural)]
pub enum SoundVariant {
    Bgm,
    Se,
    Voice,
}

/// One playable audio asset of a scene.
#[derive(Debug)]
pub struct SoundInstance {
    pub id: String,
    pub display_name: String,
    pub path: String,
    pub volume: u32,
    pub looped: bool,
    pub variant: SoundVariant,
}

/// A named grouping of sound instances.
#[derive(Debug)]
pub struct SoundScene {
    pub id: String,
    pub display_name: String,
    pub sounds: Vec<SoundInstance>,
}

/// The editable document: a display name and an ordered list of scenes.
#[derive(Debug)]
pub struct Project {
    pub display_name: String,
    pub scenes: Vec<SoundScene>,
}

/// What a sound instance holds, as mathematical values.
pub struct SoundModel {
    pub id: Seq<char>,
    pub display_name: Seq<char>,
    pub path: Seq<char>,
    pub volume: u32,
    pub looped: bool,
    pub variant: SoundVariant,
}

/// What a scene holds, as mathematical values.
pub struct SceneModel {
    pub id: Seq<char>,
    pub display_name: Seq<char>,
    pub sounds: Seq<SoundModel>,
}

/// What the document holds, as mathematical values.
pub struct ProjectModel {
    pub display_name: Seq<char>,
    pub scenes: Seq<SceneModel>,
}

impl View for SoundInstance {
    type V = SoundModel;

    open spec fn view(&self) -> SoundModel {
        SoundModel {
            id: self.id@,
            display_name: self.display_name@,
            path: self.path@,
            volume: self.volume,
            looped: self.looped,
            variant: self.variant,
        }
    }
}

impl View for SoundScene {
    type V = SceneModel;

    open spec fn view(&self) -> SceneModel {
        SceneModel {
            id: self.id@,
            display_name: self.display_name@,
            sounds: self.sounds@.map_values(|s: SoundInstance| s@),
        }
    }
}

impl View for Project {
    type V = ProjectModel;

    open spec fn view(&self) -> ProjectModel {
        ProjectModel {
            display_name: self.display_name@,
            scenes: self.scenes@.map_values(|s: SoundScene| s@),
        }
    }
}

/// One change to a single sound.
#[derive(Clone, Copy, Debug, PartialEq, Eq, Structural)]
pub enum SoundPatch {
    Volume(u32),
    Looped(bool),
}

/// The sound with the patch applied.
pub open spec fn apply_patch(s: SoundModel, p: SoundPatch) -> SoundModel {
    match p {
        SoundPatch::Volume(v) => SoundModel { volume: v, ..s },
        SoundPatch::Looped(l) => SoundModel { looped: l, ..s },
    }
}

/// `j` is the first position in `sounds` that holds a sound with id `id`.
pub open spec fn is_first_sound(sounds: Seq<SoundModel>, j: int, id: Seq<char>) -> bool {
    &&& 0 <= j < sounds.len()
    &&& sounds[j].id == id
    &&& forall|k: int| 0 <= k < j ==> sounds[k].id != id
}

/// `i` is the first position in `scenes` that holds a scene with id `id`.
pub open spec fn is_first_scene(scenes: Seq<SceneModel>, i: int, id: Seq<char>) -> bool {
    &&& 0 <= i < scenes.len()
    &&& scenes[i].id == id
    &&& forall|k: int| 0 <= k < i ==> scenes[k].id != id
}

/// The scene with the patch applied to its first sound of id `sound_id`;
/// the scene itself when it has no such sound.
pub open spec fn patched_scene(scene: SceneModel, sound_id: Seq<char>, p: SoundPatch) -> SceneModel {
    if exists|j: int| is_first_sound(scene.sounds, j, sound_id) {
        let j = choose|j: int| is_first_sound(scene.sounds, j, sound_id);
        SceneModel { sounds: scene.sounds.update(j, apply_patch(scene.sounds[j], p)), ..scene }
    } else {
        scene
    }
}

/// The document with the patch applied to the sound `sound_id` of its first
/// scene of id `scene_id`; the document itself when either is missing.
pub open spec fn patched(
    doc: ProjectModel,
    scene_id: Seq<char>,
    sound_id: Seq<char>,
    p: SoundPatch,
) -> ProjectModel {
    if exists|i: int| is_first_scene(doc.scenes, i, scene_id) {
        let i = choose|i: int| is_first_scene(doc.scenes, i, scene_id);
        ProjectModel {
            scenes: doc.scenes.update(i, patched_scene(doc.scenes[i], sound_id, p)),
            ..doc
        }
    } else {
        doc
    }
}

/// Scene ids are unique in the document, and sound ids within each scene.
pub open spec fn well_formed(doc: ProjectModel) -> bool {
    &&& forall|a: int, b: int|
        0 <= a < b < doc.scenes.len() ==> doc.scenes[a].id != doc.scenes[b].id
    &&& forall|i: int| 0 <= i < doc.scenes.len() ==> sound_ids_unique(#[trigger] doc.scenes[i])
}

/// Sound ids are unique within the scene.
pub open spec fn sound_ids_unique(scene: SceneModel) -> bool {
    forall|a: int, b: int|
        0 <= a < b < scene.sounds.len() ==> scene.sounds[a].id != scene.sounds[b].id
}

/// The document with `p` applied to the sound at `j` of the scene at `i`,
/// and nothing else changed.
pub open spec fn with_sound_patched(doc: ProjectModel, i: int, j: int, p: SoundPatch) -> ProjectModel {
    ProjectModel {
        scenes: doc.scenes.update(
            i,
            SceneModel {
                sounds: doc.scenes[i].sounds.update(j, apply_patch(doc.scenes[i].sounds[j], p)),
                ..doc.scenes[i]
            },
        ),
        ..doc
    }
}

/// In a well-formed document, a patch that names the ids of the sound at `j`
/// of the scene at `i` changes that sound alone.
pub proof fn lemma_patch_changes_only_that_sound(doc: ProjectModel, i: int, j: int, p: SoundPatch)
    requires
        well_formed(doc),
        0 <= i < doc.scenes.len(),
        0 <= j < doc.scenes[i].sounds.len(),
    ensures
        patched(doc, doc.scenes[i].id, doc.scenes[i].sounds[j].id, p) == with_sound_patched(doc, i, j, p),
{
    let sid = doc.scenes[i].id;
    let snd = doc.scenes[i].sounds[j].id;
    assert(is_first_scene(doc.scenes, i, sid));
    let ci = choose|x: int| is_first_scene(doc.scenes, x, sid);
    if ci < i {
        assert(doc.scenes[ci].id != doc.scenes[i].id);
    } else if ci > i {
        assert(doc.scenes[i].id != doc.scenes[ci].id);
    }
    let scene = doc.scenes[i];
    assert(sound_ids_unique(scene));
    assert(is_first_sound(scene.sounds, j, snd));
    let cj = choose|x: int| is_first_sound(scene.sounds, x, snd);
    if cj < j {
        assert(scene.sounds[cj].id != scene.sounds[j].id);
    } else if cj > j {
        assert(scene.sounds[j].id != scene.sounds[cj].id);
    }
}

/// Setting the volume of a sound that a well-formed document holds gives that
/// sound the new volume and changes nothing else in the document.
pub proof fn lemma_patch_volume_changes_only_that_sound(doc: ProjectModel, i: int, j: int, volume: u32)
    requires
        well_formed(doc),
        0 <= i < doc.scenes.len(),
        0 <= j < doc.scenes[i].sounds.len(),
    ensures
        patched(doc, doc.scenes[i].id, doc.scenes[i].sounds[j].id, SoundPatch::Volume(volume))
            == (ProjectModel {
            scenes: doc.scenes.update(
                i,
                SceneModel {
                    sounds: doc.scenes[i].sounds.update(
                        j,
                        SoundModel { volume, ..doc.scenes[i].sounds[j] },
                    ),
                    ..doc.scenes[i]
                },
            ),
            ..doc
        }),
{
    lemma_patch_changes_only_that_sound(doc, i, j, SoundPatch::Volume(volume));
}

/// Setting whether a sound that a well-formed document holds loops changes
/// that flag of that sound and nothing else in the document.
pub proof fn lemma_patch_looped_changes_only_that_sound(doc: ProjectModel, i: int, j: int, looped: bool)
    requires
        well_formed(doc),
        0 <= i < doc.scenes.len(),
        0 <= j < doc.scenes[i].sounds.len(),
    ensures
        patched(doc, doc.scenes[i].id, doc.scenes[i].sounds[j].id, SoundPatch::Looped(looped))
            == (ProjectModel {
            scenes: doc.scenes.update(
                i,
                SceneModel {
                    sounds: doc.scenes[i].sounds.update(
                        j,
                        SoundModel { looped, ..doc.scenes[i].sounds[j] },
                    ),
                    ..doc.scenes[i]
                },
            ),
            ..doc
        }),
{
    lemma_patch_changes_only_that_sound(doc, i, j, SoundPatch::Looped(looped));
}

/// A patch naming a scene and sound that the document does not hold together
/// leaves the document as it was.
pub proof fn lemma_patch_unknown_ids_is_noop(
    doc: ProjectModel,
    scene_id: Seq<char>,
    sound_id: Seq<char>,
    p: SoundPatch,
)
    requires
        forall|i: int, j: int|
            0 <= i < doc.scenes.len() && 0 <= j < doc.scenes[i].sounds.len()
                ==> !(doc.scenes[i].id == scene_id && doc.scenes[i].sounds[j].id == sound_id),
    ensures
        patched(doc, scene_id, sound_id, p) == doc,
{
    if exists|i: int| is_first_scene(doc.scenes, i, scene_id) {
        let i = choose|i: int| is_first_scene(doc.scenes, i, scene_id);
        let scene = doc.scenes[i];
        if exists|j: int| is_first_sound(scene.sounds, j, sound_id) {
            let j = choose|j: int| is_first_sound(scene.sounds, j, sound_id);
            assert(doc.scenes[i].sounds[j].id == sound_id);
        }
        assert(doc.scenes.update(i, patched_scene(scene, sound_id, p)) =~= doc.scenes);
    }
}

/// Patching never touches an id, so a well-formed document stays well-formed.
pub proof fn lemma_patch_preserves_well_formed(
    doc: ProjectModel,
    scene_id: Seq<char>,
    sound_id: Seq<char>,
    p: SoundPatch,
)
    requires
        well_formed(doc),
    ensures
        well_formed(patched(doc, scene_id, sound_id, p)),
{
    let out = patched(doc, scene_id, sound_id, p);
    assert(out.scenes.len() == doc.scenes.len());
    assert forall|i: int| 0 <= i < doc.scenes.len() implies (#[trigger] out.scenes[i]).id == doc.scenes[i].id
        && out.scenes[i].sounds.len() == doc.scenes[i].sounds.len() && forall|j: int|
        0 <= j < doc.scenes[i].sounds.len() ==> (#[trigger] out.scenes[i].sounds[j]).id
            == doc.scenes[i].sounds[j].id by {
        let scene = doc.scenes[i];
        let ps = patched_scene(scene, sound_id, p);
        assert forall|j: int| 0 <= j < scene.sounds.len() implies (#[trigger] ps.sounds[j]).id
            == scene.sounds[j].id by {
            if exists|x: int| is_first_sound(scene.sounds, x, sound_id) {
                let x = choose|x: int| is_first_sound(scene.sounds, x, sound_id);
                if j == x {
                    match p {
                        SoundPatch::Volume(_) => {},
                        SoundPatch::Looped(_) => {},
                    }
                }
            }
        }
    }
}

impl SoundInstance {
    /// A deep copy.
    pub fn snapshot(&self) -> (r: SoundInstance)
        ensures
            r@ == self@,
    {
        SoundInstance {
            id: self.id.clone(),
            display_name: self.display_name.clone(),
            path: self.path.clone(),
            volume: self.volume,
            looped: self.looped,
            variant: self.variant,
        }
    }
}

impl SoundScene {
    /// Whether sound ids are unique within the scene.
    pub fn has_unique_sound_ids(&self) -> (r: bool)
        ensures
            r == sound_ids_unique(self@),
    {
        let n = self.sounds.len();
        let mut b: usize = 0;
        while b < n
            invariant
                n == self.sounds@.len(),
                b <= n,
                forall|x: int, y: int|
                    0 <= x < y < b ==> self@.sounds[x].id != self@.sounds[y].id,
            decreases n - b,
        {
            let mut a: usize = 0;
            while a < b
                invariant
                    n == self.sounds@.len(),
                    a <= b < n,
                    forall|x: int| 0 <= x < a ==> self@.sounds[x].id != self@.sounds[b as int].id,
                decreases b - a,
            {
                if self.sounds[a].id == self.sounds[b].id {
                    assert(self@.sounds[a as int].id == self@.sounds[b as int].id);
                    return false;
                }
                a = a + 1;
            }
            b = b + 1;
        }
        true
    }

    /// A deep copy.
    pub fn snapshot(&self) -> (r: SoundScene)
        ensures
            r@ == self@,
    {
        let mut sounds: Vec<SoundInstance> = Vec::new();
        let mut j: usize = 0;
        while j < self.sounds.len()
            invariant
                j <= self.sounds.len(),
                sounds@.len() == j,
                forall|k: int| 0 <= k < j ==> sounds@[k]@ == self.sounds@[k]@,
            decreases self.sounds.len() - j,
        {
            sounds.push(self.sounds[j].snapshot());
            j = j + 1;
        }
        let r = SoundScene {
            id: self.id.clone(),
            display_name: self.display_name.clone(),
            sounds,
        };
        assert(r@.sounds =~= self@.sounds);
        r
    }

    /// Applies `p` to the first sound of id `sound_id`, if there is one.
    pub fn patch_sound(&mut self, sound_id: &String, p: SoundPatch)
        ensures
            final(self)@ == patched_scene(old(self)@, sound_id@, p),
    {
        let ghost s0 = self@;
        let mut j: usize = 0;
        while j < self.sounds.len()
            invariant
                j <= self.sounds.len(),
                self@ == s0,
                s0 == old(self)@,
                forall|k: int| 0 <= k < j ==> s0.sounds[k].id != sound_id@,
            decreases self.sounds.len() - j,
        {
            if self.sounds[j].id == *sound_id {
                assert(is_first_sound(s0.sounds, j as int, sound_id@));
                assert forall|x: int| is_first_sound(s0.sounds, x, sound_id@) implies x == j by {
                    if x < j {
                    } else if x > j {
                        assert(s0.sounds[j as int].id == sound_id@);
                    }
                }
                match p {
                    SoundPatch::Volume(v) => {
                        self.sounds[j].volume = v;
                    },
                    SoundPatch::Looped(l) => {
                        self.sounds[j].looped = l;
                    },
                }
                assert(self@.sounds =~= patched_scene(s0, sound_id@, p).sounds);
                return;
            }
            j = j + 1;
        }
    }
}

impl Project {
    /// Whether scene ids are unique, and sound ids within each scene.
    pub fn is_well_formed(&self) -> (r: bool)
        ensures
            r == well_formed(self@),
    {
        let n = self.scenes.len();
        let mut b: usize = 0;
        while b < n
            invariant
                n == self.scenes@.len(),
                b <= n,
                forall|x: int, y: int|
                    0 <= x < y < b ==> self@.scenes[x].id != self@.scenes[y].id,
                forall|i: int| 0 <= i < b ==> sound_ids_unique(#[trigger] self@.scenes[i]),
            decreases n - b,
        {
            if !self.scenes[b].has_unique_sound_ids() {
                assert(!sound_ids_unique(self@.scenes[b as int]));
                return false;
            }
            let mut a: usize = 0;
            while a < b
                invariant
                    n == self.scenes@.len(),
                    a <= b < n,
                    forall|x: int| 0 <= x < a ==> self@.scenes[x].id != self@.scenes[b as int].id,
                decreases b - a,
            {
                if self.scenes[a].id == self.scenes[b].id {
                    assert(self@.scenes[a as int].id == self@.scenes[b as int].id);
                    return false;
                }
                a = a + 1;
            }
            b = b + 1;
        }
        true
    }

    /// A deep copy.
    pub fn snapshot(&self) -> (r: Project)
        ensures
            r@ == self@,
    {
        let mut scenes: Vec<SoundScene> = Vec::new();
        let mut i: usize = 0;
        while i < self.scenes.len()
            invariant
                i <= self.scenes.len(),
                scenes@.len() == i,
                forall|k: int| 0 <= k < i ==> scenes@[k]@ == self.scenes@[k]@,
            decreases self.scenes.len() - i,
        {
            scenes.push(self.scenes[i].snapshot());
            i = i + 1;
        }
        let r = Project { display_name: self.display_name.clone(), scenes };
        assert(r@.scenes =~= self@.scenes);
        r
    }

    /// Applies `p` to the sound `sound_id` of the scene `scene_id`; leaves the
    /// document as it is when either id matches nothing.
    pub fn patch_sound(&mut self, scene_id: &String, sound_id: &String, p: SoundPatch)
        ensures
            final(self)@ == patched(old(self)@, scene_id@, sound_id@, p),
    {
        let ghost d0 = self@;
        let mut i: usize = 0;
        while i < self.scenes.len()
            invariant
                i <= self.scenes.len(),
                self@ == d0,
                d0 == old(self)@,
                forall|k: int| 0 <= k < i ==> d0.scenes[k].id != scene_id@,
            decreases self.scenes.len() - i,
        {
            if self.scenes[i].id == *scene_id {
                assert(is_first_scene(d0.scenes, i as int, scene_id@));
                assert forall|x: int| is_first_scene(d0.scenes, x, scene_id@) implies x == i by {
                    if x < i {
                    } else if x > i {
                        assert(d0.scenes[i as int].id == scene_id@);
                    }
                }
                self.scenes[i].patch_sound(sound_id, p);
                assert(self@.scenes =~= patched(d0, scene_id@, sound_id@, p).scenes);
                return;
            }
            i = i + 1;
        }
    }

    /// Sets the volume of the sound `sound_id` of the scene `scene_id`.
    pub fn patch_sound_volume(&mut self, scene_id: &String, sound_id: &String, volume: u32)
        ensures
            final(self)@ == patched(old(self)@, scene_id@, sound_id@, SoundPatch::Volume(volume)),
    {
        self.patch_sound(scene_id, sound_id, SoundPatch::Volume(volume));
    }

    /// Sets whether the sound `sound_id` of the scene `scene_id` loops.
    pub fn patch_sound_looped(&mut self, scene_id: &String, sound_id: &String, looped: bool)
        ensures
            final(self)@ == patched(old(self)@, scene_id@, sound_id@, SoundPatch::Looped(looped)),
    {
        self.patch_sound(scene_id, sound_id, SoundPatch::Looped(looped));
    }
}

} // verus!
