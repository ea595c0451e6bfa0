//! Input contexts, the actions they offer, and the rule by which a context is
//! switched.

use vstd::prelude::*;
use crate::models::event_dispatch::SwitchInputCtx;
use crate::world::Entity;

verus! {

/// Which set of actions the input is read as.
#[derive(Clone, Copy, Debug, PartialEq, Eq, Structural)]
pub enum Context {
    /// Menus and dialogs.
    Modal,
    /// Moving and fighting.
    Gameplay,
}

impl Default for Context {
    fn default() -> (r: Self)
        ensures
            r == Context::Modal,
    {
        Context::Modal
    }
}

/// The input context that a player is in.
#[derive(Clone, Copy, Debug, PartialEq, Eq, Structural)]
pub struct CurrentCtx(pub Context);

/// Marks the actions of gameplay, and the entity that reads them.
#[derive(Clone, Copy, Debug, PartialEq, Eq, Structural)]
pub struct GameplayCtx;

/// Move: a direction on two axes.
#[derive(Clone, Copy, Debug, PartialEq, Eq, Structural)]
pub struct Navigate;

/// Turn the camera: a direction on two axes.
#[derive(Clone, Copy, Debug, PartialEq, Eq, Structural)]
pub struct Rotate;

#[derive(Clone, Copy, Debug, PartialEq, Eq, Structural)]
pub struct Attack;

#[derive(Clone, Copy, Debug, PartialEq, Eq, Structural)]
pub struct Jump;

#[derive(Clone, Copy, Debug, PartialEq, Eq, Structural)]
pub struct Sprint;

#[derive(Clone, Copy, Debug, PartialEq, Eq, Structural)]
pub struct Dash;

#[derive(Clone, Copy, Debug, PartialEq, Eq, Structural)]
pub struct Crouch;

#[derive(Clone, Copy, Debug, PartialEq, Eq, Structural)]
pub struct Pause;

#[derive(Clone, Copy, Debug, PartialEq, Eq, Structural)]
pub struct Mute;

/// Marks the actions of menus, and the entity that reads them.
#[derive(Clone, Copy, Debug, PartialEq, Eq, Structural)]
pub struct ModalCtx;

#[derive(Clone, Copy, Debug, PartialEq, Eq, Structural)]
pub struct Escape;

#[derive(Clone, Copy, Debug, PartialEq, Eq, Structural)]
pub struct Select;

#[derive(Clone, Copy, Debug, PartialEq, Eq, Structural)]
pub struct RightTab;

#[derive(Clone, Copy, Debug, PartialEq, Eq, Structural)]
pub struct LeftTab;

/// What is done to the set of actions that an entity reads.
#[derive(Clone, Copy, Debug, PartialEq, Eq, Structural)]
pub enum ActionsChange {
    /// Give the entity the actions of the context.
    Insert(Context),
    /// Take the actions of the context from the entity.
    Remove(Context),
}

/// A change to the actions of one entity.
#[derive(Clone, Copy, Debug, PartialEq, Eq, Structural)]
pub struct ActionsCommand {
    pub entity: Entity,
    pub change: ActionsChange,
}

/// What a switch of the input context comes to.
pub struct CtxSwitch {
    /// The changes to make, in order.
    pub commands: Vec<ActionsCommand>,
    /// The context that the player is in afterwards, if the switch was about a
    /// player who is there.
    pub player_ctx: Option<CurrentCtx>,
}

/// The changes of a switch of the global context, held by `holder`: entering
/// the menus gives it the menu actions, going to gameplay takes them away.
pub open spec fn global_switch_commands(new_ctx: Context, holder: Entity) -> Seq<ActionsCommand> {
    match new_ctx {
        Context::Modal => seq![
            ActionsCommand { entity: holder, change: ActionsChange::Insert(Context::Modal) },
        ],
        Context::Gameplay => seq![
            ActionsCommand { entity: holder, change: ActionsChange::Remove(Context::Modal) },
        ],
    }
}

/// The changes of a switch of a player from `current` to `new_ctx`: the old
/// actions go and the new ones come, and nothing is done where the two agree.
pub open spec fn player_switch_commands(current: Context, new_ctx: Context, entity: Entity) -> Seq<
    ActionsCommand,
> {
    if current == new_ctx {
        Seq::empty()
    } else {
        seq![
            ActionsCommand { entity, change: ActionsChange::Remove(current) },
            ActionsCommand { entity, change: ActionsChange::Insert(new_ctx) },
        ]
    }
}

/// The changes that the switch `event` asks for. `global_ctx` is the holder of
/// the global context, if there is one; `player_ctx` is the context of the
/// entity that the switch names, if it is a player.
pub open spec fn ctx_switch_commands(
    event: SwitchInputCtx,
    global_ctx: Option<Entity>,
    player_ctx: Option<CurrentCtx>,
) -> Seq<ActionsCommand> {
    if event.is_global() {
        match global_ctx {
            Some(holder) => global_switch_commands(event.ctx, holder),
            None => Seq::empty(),
        }
    } else {
        match player_ctx {
            Some(current) => player_switch_commands(current.0, event.ctx, event.entity),
            None => Seq::empty(),
        }
    }
}

/// Decides a switch of the input context. A switch that names the placeholder
/// is about the global context and leaves every player alone; any other is
/// about the player it names and is dropped if there is no such player.
pub fn on_ctx_switch(
    event: &SwitchInputCtx,
    global_ctx: Option<Entity>,
    player_ctx: Option<CurrentCtx>,
) -> (r: CtxSwitch)
    ensures
        r.commands@ == ctx_switch_commands(*event, global_ctx, player_ctx),
        r.player_ctx == (if event.is_global() {
            player_ctx
        } else {
            match player_ctx {
                Some(_) => Some(CurrentCtx(event.ctx)),
                None => None,
            }
        }),
{
    let mut commands: Vec<ActionsCommand> = Vec::new();
    if event.entity == Entity::placeholder() {
        match global_ctx {
            Some(holder) => {
                let change = match event.ctx {
                    Context::Modal => ActionsChange::Insert(Context::Modal),
                    Context::Gameplay => ActionsChange::Remove(Context::Modal),
                };
                commands.push(ActionsCommand { entity: holder, change });
            },
            None => {},
        }
        return CtxSwitch { commands, player_ctx };
    }
    match player_ctx {
        Some(current) => {
            if current.0 != event.ctx {
                commands.push(
                    ActionsCommand { entity: event.entity, change: ActionsChange::Remove(current.0) },
                );
                commands.push(
                    ActionsCommand {
                        entity: event.entity,
                        change: ActionsChange::Insert(event.ctx),
                    },
                );
            }
            CtxSwitch { commands, player_ctx: Some(CurrentCtx(event.ctx)) }
        },
        None => CtxSwitch { commands, player_ctx: None },
    }
}

} // verus!
