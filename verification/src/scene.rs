//! The scene graph: a grow-only arena of parented entities with an explicit
//! recursive free, and the two assemblers that build the game's world — the
//! static scenery spawned once at startup and the player rig spawned on
//! entering gameplay.
//!
//! Slots are never reused, so an entity's index stays valid for the life of
//! the arena; despawning marks the entity and all of its descendants dead.

use vstd::prelude::*;

verus! {

#[derive(Clone, Copy, PartialEq, Eq, Structural, Debug)]
pub enum ParrotType {
    Blue,
    Red,
}

#[derive(Clone, Copy, PartialEq, Eq, Structural, Debug)]
pub enum EntityKind {
    PlayerRoot,
    PlayerCam,
    HandlebarSprite,
    ParrotSprite(ParrotType),
    DashboardSprite,
    IndicatorSprite,
    GameCam,
    Floor,
    PointLight,
    TargetDummy,
    TowerBase,
    TowerModel,
}

/// A patrol target attached to a scenery entity.
#[derive(Clone, Copy, PartialEq, Eq, Structural, Debug)]
pub struct Target {
    pub speed: i64,
    pub path_index: usize,
}

#[derive(Clone, Copy, PartialEq, Eq, Structural, Debug)]
pub struct Health {
    pub value: i64,
}

#[derive(Clone, Copy, PartialEq, Eq, Structural, Debug)]
pub struct Vec3Fx {
    pub x: i64,
    pub y: i64,
    pub z: i64,
}

#[derive(Clone, Copy, PartialEq, Eq, Structural, Debug)]
pub struct EntityData {
    pub kind: EntityKind,
    pub translation: Vec3Fx,
    pub scale: Vec3Fx,
    pub target: Option<Target>,
    pub health: Option<Health>,
}

#[derive(Clone, Copy, PartialEq, Eq, Structural, Debug)]
pub struct Slot {
    pub alive: bool,
    pub parent: Option<usize>,
    pub data: EntityData,
}

pub struct Arena {
    pub slots: Vec<Slot>,
}

/// Whether entity `i` lies in the subtree rooted at `root`, following parent
/// links of `s`; parents always sit at lower indices than live children.
pub open spec fn in_subtree(s: Seq<Slot>, root: int, i: int) -> bool
    decreases i,
{
    if i == root {
        true
    } else {
        match s[i].parent {
            Some(p) => 0 <= p as int && (p as int) < i && in_subtree(s, root, p as int),
            None => false,
        }
    }
}

/// Nothing below the root's index can lie in the root's subtree.
pub proof fn lemma_in_subtree_below(s: Seq<Slot>, root: int, i: int)
    requires
        0 <= i < root,
    ensures
        !in_subtree(s, root, i),
    decreases i,
{
    match s[i].parent {
        Some(p) => {
            if 0 <= p as int && (p as int) < i {
                lemma_in_subtree_below(s, root, p as int);
            }
        },
        None => {},
    }
}

/// When entity `i` is alive, its parent is alive and sits at a lower index.
pub open spec fn parent_live(s: Seq<Slot>, i: int) -> bool {
    s[i].alive ==> match s[i].parent {
        Some(p) => (p as int) < i && s[p as int].alive,
        None => true,
    }
}

impl Arena {
    /// A live entity's parent is itself live and sits at a lower index.
    pub open spec fn wf(self) -> bool {
        forall|i: int| 0 <= i < self.slots@.len() ==> #[trigger] parent_live(self.slots@, i)
    }

    pub fn new() -> (a: Arena)
        ensures
            a.wf(),
            a.slots@.len() == 0,
    {
        Arena { slots: Vec::new() }
    }

    /// Spawns a new live entity, optionally as a child of a live parent, and
    /// returns its index.
    pub fn spawn(&mut self, data: EntityData, parent: Option<usize>) -> (id: usize)
        requires
            old(self).wf(),
            old(self).slots@.len() < usize::MAX,
            match parent {
                Some(p) => (p as int) < old(self).slots@.len()
                    && old(self).slots@[p as int].alive,
                None => true,
            },
        ensures
            final(self).wf(),
            id == old(self).slots@.len(),
            final(self).slots@ =~= old(self).slots@.push(
                (Slot { alive: true, parent, data }),
            ),
    {
        let id = self.slots.len();
        self.slots.push(Slot { alive: true, parent, data });
        proof {
            assert forall|j: int| 0 <= j < self.slots@.len() implies #[trigger] parent_live(
                self.slots@,
                j,
            ) by {
                if j < id as int {
                    assert(parent_live(old(self).slots@, j));
                    assert(self.slots@[j] == old(self).slots@[j]);
                    if old(self).slots@[j].alive {
                        match old(self).slots@[j].parent {
                            Some(p) => {
                                assert(self.slots@[p as int] == old(self).slots@[p as int]);
                            },
                            None => {},
                        }
                    }
                }
            }
        }
        id
    }

    /// Marks the entity `root` and every entity in its subtree dead, leaving
    /// all other slots untouched.
    #[verifier::spinoff_prover]
    pub fn despawn_recursive(&mut self, root: usize)
        requires
            old(self).wf(),
            (root as int) < old(self).slots@.len(),
            old(self).slots@[root as int].alive,
        ensures
            final(self).wf(),
            final(self).slots@.len() == old(self).slots@.len(),
            forall|j: int| 0 <= j < old(self).slots@.len() ==> {
                &&& (#[trigger] final(self).slots@[j]).alive == (old(self).slots@[j].alive
                    && !in_subtree(old(self).slots@, root as int, j))
                &&& final(self).slots@[j].parent == old(self).slots@[j].parent
                &&& final(self).slots@[j].data == old(self).slots@[j].data
            },
    {
        let ghost s0 = self.slots@;
        let n = self.slots.len();
        let mut out: Vec<Slot> = Vec::new();
        let mut i: usize = 0;
        while i < n
            invariant
                i <= n,
                n == s0.len(),
                s0 == old(self).slots@,
                self.slots@ == s0,
                (root as int) < n,
                s0[root as int].alive,
                forall|k: int| 0 <= k < n ==> #[trigger] parent_live(s0, k),
                out@.len() == i,
                forall|j: int| 0 <= j < i as int ==> {
                    &&& (#[trigger] out@[j]).alive == (s0[j].alive
                        && !in_subtree(s0, root as int, j))
                    &&& out@[j].parent == s0[j].parent
                    &&& out@[j].data == s0[j].data
                },
            decreases n - i,
        {
            proof {
                assert(parent_live(s0, i as int));
                if i < root {
                    lemma_in_subtree_below(s0, root as int, i as int);
                }
                if s0[i as int].alive && i != root {
                    match s0[i as int].parent {
                        Some(p) => {
                            assert((p as int) < i as int && s0[p as int].alive);
                            assert(in_subtree(s0, root as int, i as int) == in_subtree(
                                s0,
                                root as int,
                                p as int,
                            ));
                        },
                        None => {
                            assert(!in_subtree(s0, root as int, i as int));
                        },
                    }
                }
            }
            let sl = self.slots[i];
            let mut nsl = sl;
            if i == root {
                nsl.alive = false;
            } else if sl.alive {
                match sl.parent {
                    Some(p) => {
                        if !out[p].alive {
                            nsl.alive = false;
                        }
                    },
                    None => {},
                }
            }
            out.push(nsl);
            i = i + 1;
        }
        self.slots = out;
        proof {
            lemma_killed_forest_wf(s0, self.slots@, root as int);
        }
    }

    /// Spawns the player rig on entering gameplay: the player root with its
    /// first-person camera, the handlebar with four decorative parrots at
    /// computed offsets, the dashboard, and the rotation indicator, all
    /// attached under the player root. Returns the player root's index; the
    /// rig occupies the nine slots from that index on.
    pub fn spawn_player_rig(&mut self) -> (player_id: usize)
        requires
            old(self).wf(),
            old(self).slots@.len() + 9 <= usize::MAX,
        ensures
            final(self).wf(),
            player_id == old(self).slots@.len(),
            final(self).slots@.len() == old(self).slots@.len() + 9,
            forall|j: int| 0 <= j < old(self).slots@.len()
                ==> #[trigger] final(self).slots@[j] == old(self).slots@[j],
            final(self).slots@[player_id as int] == (Slot {
                alive: true,
                parent: None,
                data: player_root_data(),
            }),
            final(self).slots@[player_id + 1] == (Slot {
                alive: true,
                parent: Some(player_id),
                data: player_cam_data(),
            }),
            final(self).slots@[player_id + 2] == (Slot {
                alive: true,
                parent: Some(player_id),
                data: handlebar_data(),
            }),
            forall|k: int| 0 <= k < 4 ==> final(self).slots@[player_id + 3 + k] == (Slot {
                alive: true,
                parent: Some((player_id + 2) as usize),
                data: parrot_data(k),
            }),
            final(self).slots@[player_id + 7] == (Slot {
                alive: true,
                parent: Some(player_id),
                data: dashboard_data(),
            }),
            final(self).slots@[player_id + 8] == (Slot {
                alive: true,
                parent: Some(player_id),
                data: indicator_data(),
            }),
    {
        let player_id = self.spawn(
            EntityData {
                kind: EntityKind::PlayerRoot,
                translation: Vec3Fx { x: 1000, y: 1000, z: 1000 },
                scale: unit_scale(),
                target: None,
                health: None,
            },
            None,
        );
        let _cam = self.spawn(
            EntityData {
                kind: EntityKind::PlayerCam,
                translation: Vec3Fx { x: 0, y: 0, z: 0 },
                scale: unit_scale(),
                target: None,
                health: None,
            },
            Some(player_id),
        );
        let handlebar_id = self.spawn(
            EntityData {
                kind: EntityKind::HandlebarSprite,
                translation: Vec3Fx { x: 0, y: -300i64, z: -1000i64 },
                scale: Vec3Fx { x: 550, y: 450, z: 550 },
                target: None,
                health: None,
            },
            Some(player_id),
        );
        let colors = [ParrotType::Blue, ParrotType::Red, ParrotType::Blue, ParrotType::Red];
        let mut k: usize = 0;
        while k < 4
            invariant
                k <= 4,
                self.wf(),
                self.slots@.len() == handlebar_id + 1 + k,
                handlebar_id + 5 <= usize::MAX,
                self.slots@[handlebar_id as int].alive,
                forall|j: int| 0 <= j < handlebar_id + 1
                    ==> #[trigger] self.slots@[j] == old(self).slots@.push(
                    (Slot {
                        alive: true,
                        parent: None,
                        data: player_root_data(),
                    }),
                ).push(
                    (Slot { alive: true, parent: Some((handlebar_id - 2) as usize), data: player_cam_data() }),
                ).push(
                    (Slot { alive: true, parent: Some((handlebar_id - 2) as usize), data: handlebar_data() }),
                )[j],
                handlebar_id == old(self).slots@.len() + 2,
                forall|j: int| 0 <= j < k as int ==> self.slots@[handlebar_id + 1 + j] == (Slot {
                    alive: true,
                    parent: Some(handlebar_id),
                    data: parrot_data(j),
                }),
                colors@ =~= seq![
                    ParrotType::Blue,
                    ParrotType::Red,
                    ParrotType::Blue,
                    ParrotType::Red,
                ],
            decreases 4 - k,
        {
            let x = -600 + (k as i64) * 400;
            let z = 10 + (k as i64) * 10;
            proof {
                assert(parrot_color(k as int) == colors@[k as int]);
            }
            let _parrot = self.spawn(
                EntityData {
                    kind: EntityKind::ParrotSprite(colors[k]),
                    translation: Vec3Fx { x, y: 500, z },
                    scale: unit_scale(),
                    target: None,
                    health: None,
                },
                Some(handlebar_id),
            );
            k = k + 1;
        }
        let _dash = self.spawn(
            EntityData {
                kind: EntityKind::DashboardSprite,
                translation: Vec3Fx { x: 0, y: -240i64, z: -800i64 },
                scale: Vec3Fx { x: 150, y: 150, z: 150 },
                target: None,
                health: None,
            },
            Some(player_id),
        );
        let _indicator = self.spawn(
            EntityData {
                kind: EntityKind::IndicatorSprite,
                translation: Vec3Fx { x: 0, y: -240i64, z: -700i64 },
                scale: Vec3Fx { x: 100, y: 100, z: 100 },
                target: None,
                health: None,
            },
            Some(player_id),
        );
        player_id
    }

    /// Despawns the whole player rig (the player root and every entity
    /// attached under it) on leaving gameplay.
    pub fn despawn_player(&mut self, player_id: usize)
        requires
            old(self).wf(),
            (player_id as int) < old(self).slots@.len(),
            old(self).slots@[player_id as int].alive,
        ensures
            final(self).wf(),
            final(self).slots@.len() == old(self).slots@.len(),
            forall|j: int| 0 <= j < old(self).slots@.len() ==> {
                &&& (#[trigger] final(self).slots@[j]).alive == (old(self).slots@[j].alive
                    && !in_subtree(old(self).slots@, player_id as int, j))
                &&& final(self).slots@[j].parent == old(self).slots@[j].parent
                &&& final(self).slots@[j].data == old(self).slots@[j].data
            },
    {
        self.despawn_recursive(player_id);
    }

    /// Spawns the free startup camera.
    pub fn spawn_camera(&mut self) -> (id: usize)
        requires
            old(self).wf(),
            old(self).slots@.len() < usize::MAX,
        ensures
            final(self).wf(),
            id == old(self).slots@.len(),
            final(self).slots@ =~= old(self).slots@.push(
                (Slot { alive: true, parent: None, data: game_cam_data() }),
            ),
    {
        self.spawn(
            EntityData {
                kind: EntityKind::GameCam,
                translation: Vec3Fx { x: -2000i64, y: 2500, z: 5000 },
                scale: unit_scale(),
                target: None,
                health: None,
            },
            None,
        )
    }

    /// Spawns the static scenery on entering gameplay: the pickable tower
    /// base with its model as a child, a point light, the floor, and two
    /// patrol target dummies.
    pub fn spawn_basic_scene(&mut self) -> (base_id: usize)
        requires
            old(self).wf(),
            old(self).slots@.len() + 6 <= usize::MAX,
        ensures
            final(self).wf(),
            base_id == old(self).slots@.len(),
            final(self).slots@ =~= old(self).slots@.push(
                (Slot { alive: true, parent: None, data: tower_base_data() }),
            ).push(
                (Slot { alive: true, parent: Some(base_id), data: tower_model_data() }),
            ).push((Slot { alive: true, parent: None, data: point_light_data() })).push(
                (Slot { alive: true, parent: None, data: floor_data() }),
            ).push((Slot { alive: true, parent: None, data: target_dummy_data(-2000i64) })).push(
                (Slot { alive: true, parent: None, data: target_dummy_data(-4000i64) }),
            ),
    {
        let base_id = self.spawn(
            EntityData {
                kind: EntityKind::TowerBase,
                translation: Vec3Fx { x: 0, y: 800, z: 0 },
                scale: unit_scale(),
                target: None,
                health: None,
            },
            None,
        );
        let _model = self.spawn(
            EntityData {
                kind: EntityKind::TowerModel,
                translation: Vec3Fx { x: 0, y: -800i64, z: 0 },
                scale: unit_scale(),
                target: None,
                health: None,
            },
            Some(base_id),
        );
        let _light = self.spawn(
            EntityData {
                kind: EntityKind::PointLight,
                translation: Vec3Fx { x: 4000, y: 8000, z: 4000 },
                scale: unit_scale(),
                target: None,
                health: None,
            },
            None,
        );
        let _floor = self.spawn(
            EntityData {
                kind: EntityKind::Floor,
                translation: Vec3Fx { x: 0, y: 0, z: 0 },
                scale: unit_scale(),
                target: None,
                health: None,
            },
            None,
        );
        let _t1 = self.spawn(target_dummy_exec(-2000), None);
        let _t2 = self.spawn(target_dummy_exec(-4000), None);
        base_id
    }
}

/// The unit scale.
pub open spec fn spec_unit_scale() -> Vec3Fx {
    Vec3Fx { x: 1000, y: 1000, z: 1000 }
}

pub fn unit_scale() -> (v: Vec3Fx)
    ensures
        v == spec_unit_scale(),
{
    Vec3Fx { x: 1000, y: 1000, z: 1000 }
}

pub open spec fn player_root_data() -> EntityData {
    EntityData {
        kind: EntityKind::PlayerRoot,
        translation: Vec3Fx { x: 1000, y: 1000, z: 1000 },
        scale: spec_unit_scale(),
        target: None,
        health: None,
    }
}

pub open spec fn player_cam_data() -> EntityData {
    EntityData {
        kind: EntityKind::PlayerCam,
        translation: Vec3Fx { x: 0, y: 0, z: 0 },
        scale: spec_unit_scale(),
        target: None,
        health: None,
    }
}

pub open spec fn handlebar_data() -> EntityData {
    EntityData {
        kind: EntityKind::HandlebarSprite,
        translation: Vec3Fx { x: 0, y: -300i64, z: -1000i64 },
        scale: Vec3Fx { x: 550, y: 450, z: 550 },
        target: None,
        health: None,
    }
}

/// The parrots alternate between the two colors.
pub open spec fn parrot_color(k: int) -> ParrotType {
    if k % 2 == 0 {
        ParrotType::Blue
    } else {
        ParrotType::Red
    }
}

/// The decorative parrots sit on the handlebar at evenly spaced offsets.
pub open spec fn parrot_data(k: int) -> EntityData {
    EntityData {
        kind: EntityKind::ParrotSprite(parrot_color(k)),
        translation: Vec3Fx { x: (-600 + 400 * k) as i64, y: 500, z: (10 + 10 * k) as i64 },
        scale: spec_unit_scale(),
        target: None,
        health: None,
    }
}

pub open spec fn dashboard_data() -> EntityData {
    EntityData {
        kind: EntityKind::DashboardSprite,
        translation: Vec3Fx { x: 0, y: -240i64, z: -800i64 },
        scale: Vec3Fx { x: 150, y: 150, z: 150 },
        target: None,
        health: None,
    }
}

pub open spec fn indicator_data() -> EntityData {
    EntityData {
        kind: EntityKind::IndicatorSprite,
        translation: Vec3Fx { x: 0, y: -240i64, z: -700i64 },
        scale: Vec3Fx { x: 100, y: 100, z: 100 },
        target: None,
        health: None,
    }
}

pub open spec fn game_cam_data() -> EntityData {
    EntityData {
        kind: EntityKind::GameCam,
        translation: Vec3Fx { x: -2000i64, y: 2500, z: 5000 },
        scale: spec_unit_scale(),
        target: None,
        health: None,
    }
}

pub open spec fn tower_base_data() -> EntityData {
    EntityData {
        kind: EntityKind::TowerBase,
        translation: Vec3Fx { x: 0, y: 800, z: 0 },
        scale: spec_unit_scale(),
        target: None,
        health: None,
    }
}

pub open spec fn tower_model_data() -> EntityData {
    EntityData {
        kind: EntityKind::TowerModel,
        translation: Vec3Fx { x: 0, y: -800i64, z: 0 },
        scale: spec_unit_scale(),
        target: None,
        health: None,
    }
}

pub open spec fn point_light_data() -> EntityData {
    EntityData {
        kind: EntityKind::PointLight,
        translation: Vec3Fx { x: 4000, y: 8000, z: 4000 },
        scale: spec_unit_scale(),
        target: None,
        health: None,
    }
}

pub open spec fn floor_data() -> EntityData {
    EntityData {
        kind: EntityKind::Floor,
        translation: Vec3Fx { x: 0, y: 0, z: 0 },
        scale: spec_unit_scale(),
        target: None,
        health: None,
    }
}

/// A patrol target dummy at ground offset `x`, with its patrol speed and
/// starting hit points.
pub open spec fn target_dummy_data(x: i64) -> EntityData {
    EntityData {
        kind: EntityKind::TargetDummy,
        translation: Vec3Fx { x: x, y: 200, z: 1500 },
        scale: spec_unit_scale(),
        target: Some(Target { speed: 300, path_index: 0 }),
        health: Some(Health { value: 3 }),
    }
}

fn target_dummy_exec(x: i64) -> (d: EntityData)
    ensures
        d == target_dummy_data(x),
{
    EntityData {
        kind: EntityKind::TargetDummy,
        translation: Vec3Fx { x: x, y: 200, z: 1500 },
        scale: unit_scale(),
        target: Some(Target { speed: 300, path_index: 0 }),
        health: Some(Health { value: 3 }),
    }
}


/// Killing exactly a subtree keeps the arena well formed: every survivor's
/// parent also survives.
proof fn lemma_killed_forest_wf(s0: Seq<Slot>, s1: Seq<Slot>, root: int)
    requires
        s1.len() == s0.len(),
        0 <= root < s0.len(),
        forall|k: int| 0 <= k < s0.len() ==> #[trigger] parent_live(s0, k),
        forall|j: int| 0 <= j < s0.len() ==> (#[trigger] s1[j]).alive == (s0[j].alive
            && !in_subtree(s0, root, j)) && s1[j].parent == s0[j].parent,
    ensures
        forall|i: int| 0 <= i < s1.len() ==> #[trigger] parent_live(s1, i),
{
    assert forall|i: int| 0 <= i < s1.len() implies #[trigger] parent_live(s1, i) by {
        assert(parent_live(s0, i));
        if s1[i].alive {
            assert(s0[i].alive && !in_subtree(s0, root, i));
            match s0[i].parent {
                Some(p) => {
                    assert((p as int) < i && s0[p as int].alive);
                    assert(i != root);
                    assert(!in_subtree(s0, root, p as int));
                    assert(s1[p as int].alive);
                },
                None => {},
            }
        }
    }
}

} // verus!
