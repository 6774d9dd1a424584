//! The post-processing effect showcase: the cycle of scenes it walks through,
//! the tone mapping each scene uses, and the set of effects shown as active.
use vstd::prelude::*;

verus! {

/// The showcase scenes, each demonstrating a group of effects.
#[derive(Clone, Copy, Debug, PartialEq, Eq, Structural, Hash)]
pub enum ShowcaseScene {
    NightScene,
    Underwater,
    HeatDistortion,
    VintageFilm,
}

/// The scene that follows `scene` in the showcase cycle.
pub open spec fn spec_next_scene(scene: ShowcaseScene) -> ShowcaseScene {
    match scene {
        ShowcaseScene::NightScene => ShowcaseScene::Underwater,
        ShowcaseScene::Underwater => ShowcaseScene::HeatDistortion,
        ShowcaseScene::HeatDistortion => ShowcaseScene::VintageFilm,
        ShowcaseScene::VintageFilm => ShowcaseScene::NightScene,
    }
}

impl ShowcaseScene {
    /// The scene that follows this one: night, underwater, heat distortion,
    /// vintage film, and back to night.
    pub fn next(&self) -> (s: ShowcaseScene)
        ensures
            s == spec_next_scene(*self),
    {
        match self {
            ShowcaseScene::NightScene => ShowcaseScene::Underwater,
            ShowcaseScene::Underwater => ShowcaseScene::HeatDistortion,
            ShowcaseScene::HeatDistortion => ShowcaseScene::VintageFilm,
            ShowcaseScene::VintageFilm => ShowcaseScene::NightScene,
        }
    }

    /// The tone mapping operator of the scene's post-processing settings
    /// (1 ACES, 2 Reinhard, 3 Uncharted2).
    pub fn tone_mapping_type(&self) -> (t: u32)
        ensures
            t == spec_scene_tone_mapping(*self),
    {
        match self {
            ShowcaseScene::NightScene => 1,
            ShowcaseScene::Underwater => 2,
            ShowcaseScene::HeatDistortion => 3,
            ShowcaseScene::VintageFilm => 2,
        }
    }

    /// The names of the effects the scene animates.
    pub fn effects(&self) -> (names: Vec<String>)
        ensures
            names@.len() == spec_scene_effects(*self).len(),
            forall|i: int|
                0 <= i < names@.len() ==> (#[trigger] names@[i])@ == spec_scene_effects(*self)[i],
    {
        let mut names: Vec<String> = Vec::new();
        match self {
            ShowcaseScene::NightScene => {
                names.push(String::from_str("Bloom"));
                names.push(String::from_str("Exposure"));
                names.push(String::from_str("Vignette"));
            },
            ShowcaseScene::Underwater => {
                names.push(String::from_str("Chromatic Aberration"));
                names.push(String::from_str("Color Tint"));
                names.push(String::from_str("Blur"));
            },
            ShowcaseScene::HeatDistortion => {
                names.push(String::from_str("Heat Distortion"));
            },
            ShowcaseScene::VintageFilm => {
                names.push(String::from_str("Film Grain"));
                names.push(String::from_str("Sepia"));
                names.push(String::from_str("Vignette"));
            },
        }
        names
    }
}

/// The tone mapping operator of each scene.
pub open spec fn spec_scene_tone_mapping(scene: ShowcaseScene) -> u32 {
    match scene {
        ShowcaseScene::NightScene => 1,
        ShowcaseScene::Underwater => 2,
        ShowcaseScene::HeatDistortion => 3,
        ShowcaseScene::VintageFilm => 2,
    }
}

/// The effects each scene animates.
pub open spec fn spec_scene_effects(scene: ShowcaseScene) -> Seq<Seq<char>> {
    match scene {
        ShowcaseScene::NightScene => seq!["Bloom"@, "Exposure"@, "Vignette"@],
        ShowcaseScene::Underwater => seq!["Chromatic Aberration"@, "Color Tint"@, "Blur"@],
        ShowcaseScene::HeatDistortion => seq!["Heat Distortion"@],
        ShowcaseScene::VintageFilm => seq!["Film Grain"@, "Sepia"@, "Vignette"@],
    }
}

/// Four scene changes bring the showcase back to where it started.
pub proof fn lemma_scene_cycle(scene: ShowcaseScene)
    ensures
        spec_next_scene(spec_next_scene(spec_next_scene(spec_next_scene(scene)))) == scene,
        spec_next_scene(scene) != scene,
{
}

/// The names in `s`, as character sequences.
pub open spec fn names_of(s: Seq<String>) -> Seq<Seq<char>> {
    s.map_values(|x: String| x@)
}

/// No name occurs twice in `s`.
pub open spec fn no_duplicates(s: Seq<Seq<char>>) -> bool {
    forall|i: int, j: int| 0 <= i < j < s.len() ==> s[i] != s[j]
}

/// Which scene is showing and which effects are marked active; no effect
/// is ever marked twice.
#[derive(Debug)]
pub struct ShowcaseState {
    current_scene: ShowcaseScene,
    active_effects: Vec<String>,
}

impl ShowcaseState {
    /// The active effects never name an effect twice.
    #[verifier::type_invariant]
    spec fn names_once(self) -> bool {
        no_duplicates(names_of(self.active_effects@))
    }

    /// The scene that is showing.
    pub closed spec fn scene(self) -> ShowcaseScene {
        self.current_scene
    }

    /// The names of the active effects, in the order they were marked.
    pub closed spec fn active_names(self) -> Seq<Seq<char>> {
        names_of(self.active_effects@)
    }

    /// The scene that is showing.
    pub fn current_scene(&self) -> (s: ShowcaseScene)
        ensures
            s == self.scene(),
    {
        self.current_scene
    }

    /// The active effects, each named once.
    pub fn active_effects(&self) -> (e: &Vec<String>)
        ensures
            names_of(e@) == self.active_names(),
            no_duplicates(self.active_names()),
    {
        proof {
            use_type_invariant(self);
        }
        &self.active_effects
    }
}

impl Default for ShowcaseState {
    fn default() -> (s: Self)
        ensures
            s.scene() == ShowcaseScene::NightScene,
            s.active_names().len() == 0,
    {
        let s = ShowcaseState { current_scene: ShowcaseScene::NightScene, active_effects: Vec::new() };
        assert(names_of(s.active_effects@) =~= Seq::<Seq<char>>::empty());
        s
    }
}

/// Tells whether `names` holds `name`.
fn contains_name(names: &Vec<String>, name: &String) -> (b: bool)
    ensures
        b == names_of(names@).contains(name@),
{
    let n = names.len();
    let mut i: usize = 0;
    while i < n
        invariant
            n == names@.len(),
            i <= n,
            forall|j: int| 0 <= j < i ==> names@[j]@ != name@,
        decreases n - i,
    {
        if names[i] == *name {
            assert(names_of(names@)[i as int] == name@);
            return true;
        }
        i = i + 1;
    }
    assert forall|j: int| 0 <= j < names_of(names@).len() implies names_of(names@)[j] != name@ by {
        assert(names_of(names@)[j] == names@[j]@);
    }
    false
}

/// Marks the effects of `scene` active in `active`: each one not yet there
/// is appended, so every name stays listed once.
fn mark_scene_effects(active: &mut Vec<String>, scene: ShowcaseScene)
    requires
        no_duplicates(names_of(old(active)@)),
    ensures
        no_duplicates(names_of(final(active)@)),
        forall|x: Seq<char>|
            #![trigger names_of(final(active)@).contains(x)]
            names_of(final(active)@).contains(x) <==> (names_of(old(active)@).contains(x)
                || spec_scene_effects(scene).contains(x)),
{
    let ghost base = names_of(active@);
    let effects = scene.effects();
    let ghost eff = spec_scene_effects(scene);
    let n = effects.len();
    for i in 0..n
        invariant
            n == effects@.len(),
            n == eff.len(),
            eff == spec_scene_effects(scene),
            forall|k: int| 0 <= k < n ==> (#[trigger] effects@[k])@ == eff[k],
            no_duplicates(names_of(active@)),
            forall|x: Seq<char>|
                #![trigger names_of(active@).contains(x)]
                names_of(active@).contains(x) <==> (base.contains(x) || eff.take(
                    i as int,
                ).contains(x)),
    {
        let ghost before = names_of(active@);
        let ghost e = eff[i as int];
        assert(effects@[i as int]@ == e);
        let present = contains_name(&active, &effects[i]);
        if !present {
            let name = effects[i].clone();
            active.push(name);
            proof {
                assert(names_of(active@) =~= before.push(e));
                let after = names_of(active@);
                assert forall|a: int, b: int| 0 <= a < b < after.len() implies after[a]
                    != after[b] by {
                    if b == before.len() {
                        assert(after[a] == before[a]);
                        assert(before.contains(before[a]));
                    }
                }
            }
        }
        proof {
            let t0 = eff.take(i as int);
            let t1 = eff.take(i + 1);
            let after = names_of(active@);
            assert(present ==> after == before);
            assert(present ==> before.contains(e));
            assert(!present ==> after == before.push(e));
            assert(t1 =~= t0.push(e));
            assert forall|x: Seq<char>|
                #![trigger after.contains(x)]
                after.contains(x) <==> (base.contains(x) || t1.contains(x)) by {
                if after.contains(x) {
                    if x != e {
                        let k = choose|k: int| 0 <= k < after.len() && #[trigger] after[k] == x;
                        if !present {
                            assert(k < before.len());
                            assert(before[k] == x);
                        }
                        assert(before.contains(x));
                        if t0.contains(x) {
                            let m = choose|m: int| 0 <= m < t0.len() && #[trigger] t0[m] == x;
                            assert(t1[m] == x);
                        }
                    } else {
                        assert(t1[i as int] == x);
                    }
                }
                if base.contains(x) || t1.contains(x) {
                    if x == e {
                        if !present {
                            assert(after[before.len() as int] == x);
                        }
                    } else {
                        if t1.contains(x) {
                            let m = choose|m: int| 0 <= m < t1.len() && #[trigger] t1[m] == x;
                            assert(m < i);
                            assert(t0[m] == x);
                        }
                        assert(before.contains(x));
                        let k = choose|k: int| 0 <= k < before.len() && #[trigger] before[k] == x;
                        assert(after[k] == x);
                    }
                }
            }
        }
    }
    assert(eff.take(n as int) =~= eff);
}

impl ShowcaseState {
    /// Advances the showcase by one frame. When the scene timer has just run
    /// out, the active effects are cleared and the next scene starts; then the
    /// effects of the current scene are marked active, each name once.
    pub fn update_showcase_scene(&mut self, timer_finished: bool)
        ensures
            final(self).scene() == if timer_finished {
                spec_next_scene(old(self).scene())
            } else {
                old(self).scene()
            },
            no_duplicates(final(self).active_names()),
            forall|x: Seq<char>|
                #![trigger final(self).active_names().contains(x)]
                final(self).active_names().contains(x) <==> ((!timer_finished
                    && old(self).active_names().contains(x)) || spec_scene_effects(
                    final(self).scene(),
                ).contains(x)),
    {
        proof {
            use_type_invariant(&*self);
        }
        let mut active: Vec<String> = Vec::new();
        std::mem::swap(&mut active, &mut self.active_effects);
        if timer_finished {
            active = Vec::new();
            self.current_scene = self.current_scene.next();
        }
        proof {
            if timer_finished {
                assert(names_of(active@) =~= Seq::<Seq<char>>::empty());
            }
        }
        mark_scene_effects(&mut active, self.current_scene);
        self.active_effects = active;
    }
}

/// When only the current scene's effects are marked active, the update keeps
/// it that way: afterwards the active effects are exactly those of the scene
/// that is showing.
pub proof fn lemma_active_effects_follow_scene(
    before: Seq<Seq<char>>,
    scene: ShowcaseScene,
    after: Seq<Seq<char>>,
    timer_finished: bool,
)
    requires
        forall|x: Seq<char>| before.contains(x) ==> spec_scene_effects(scene).contains(x),
        forall|x: Seq<char>|
            #![trigger after.contains(x)]
            after.contains(x) <==> ((!timer_finished && before.contains(x)) || spec_scene_effects(
                if timer_finished {
                    spec_next_scene(scene)
                } else {
                    scene
                },
            ).contains(x)),
    ensures
        forall|x: Seq<char>|
            #![trigger after.contains(x)]
            after.contains(x) <==> spec_scene_effects(
                if timer_finished {
                    spec_next_scene(scene)
                } else {
                    scene
                },
            ).contains(x),
{
}

} // verus!
