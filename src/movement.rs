use vstd::prelude::*;

verus! {

/// Which of the two configured speeds the character moves at this tick.
#[derive(PartialEq, Eq, Structural, Clone, Copy, Debug)]
pub enum SpeedMode {
    Walk,
    Sprint,
}

/// What happens to the vertical velocity this tick.
#[derive(PartialEq, Eq, Structural, Clone, Copy, Debug)]
pub enum VerticalAction {
    /// Grounded without a jump: the vertical velocity is left as it is.
    Hold,
    /// Grounded on a jump-press edge: the vertical velocity becomes the jump force.
    Jump,
    /// Airborne: gravity times the elapsed time is taken off the vertical velocity.
    Fall,
}

/// How the horizontal velocity follows the desired direction this tick.
#[derive(PartialEq, Eq, Structural, Clone, Copy, Debug)]
pub enum HorizontalBlend {
    /// Grounded with input: the velocity becomes `direction * speed` at once.
    Snap,
    /// Grounded without input: the velocity is lerped toward zero with
    /// weight `decel_speed * delta`.
    Decay,
    /// Airborne: the velocity is lerped toward `direction * speed` with
    /// weight `air_accel * delta`, whether or not there is input.
    AirSteer,
}

/// What the host reports for one physics tick.
#[derive(PartialEq, Eq, Structural, Clone, Copy, Debug)]
pub struct TickInput {
    /// The collision query reports contact with a walkable surface.
    pub grounded: bool,
    /// The jump action went down this tick.
    pub jump_pressed: bool,
    /// The sprint action is held this tick.
    pub sprint_held: bool,
    /// The cancel action went down this tick.
    pub cancel_pressed: bool,
    /// The desired world-space direction is not the zero vector.
    pub moving: bool,
}

/// The update rules that the host applies for one physics tick.
#[derive(PartialEq, Eq, Structural, Clone, Copy, Debug)]
pub struct TickPlan {
    /// The rule for the vertical velocity.
    pub vertical: VerticalAction,
    /// The speed that `direction * speed` uses.
    pub speed_mode: SpeedMode,
    /// The rule for the horizontal velocity.
    pub horizontal: HorizontalBlend,
    /// The head-bob phase advances by `delta` times the horizontal speed.
    pub advance_bob: bool,
    /// The host is asked to end the process.
    pub quit: bool,
}

/// Gravity while airborne; the jump force on a grounded jump-press edge.
pub open spec fn vertical_rule(grounded: bool, jump_pressed: bool) -> VerticalAction {
    if !grounded {
        VerticalAction::Fall
    } else if jump_pressed {
        VerticalAction::Jump
    } else {
        VerticalAction::Hold
    }
}

/// A hard switch on the sprint action, with no ramp and no memory.
pub open spec fn speed_rule(sprint_held: bool) -> SpeedMode {
    if sprint_held {
        SpeedMode::Sprint
    } else {
        SpeedMode::Walk
    }
}

/// Traction on the ground, momentum in the air.
pub open spec fn horizontal_rule(grounded: bool, moving: bool) -> HorizontalBlend {
    if !grounded {
        HorizontalBlend::AirSteer
    } else if moving {
        HorizontalBlend::Snap
    } else {
        HorizontalBlend::Decay
    }
}

/// The plan that a tick with the given input calls for.
pub open spec fn tick_plan(input: TickInput) -> TickPlan {
    TickPlan {
        vertical: vertical_rule(input.grounded, input.jump_pressed),
        speed_mode: speed_rule(input.sprint_held),
        horizontal: horizontal_rule(input.grounded, input.moving),
        advance_bob: input.grounded,
        quit: input.cancel_pressed,
    }
}

/// Decides the update rules of one physics tick.
pub fn plan_tick(input: &TickInput) -> (p: TickPlan)
    ensures
        p == tick_plan(*input),
        p.vertical is Fall <==> !input.grounded,
        p.vertical is Jump <==> input.grounded && input.jump_pressed,
        p.speed_mode is Sprint <==> input.sprint_held,
        p.horizontal is Snap <==> input.grounded && input.moving,
        p.horizontal is Decay <==> input.grounded && !input.moving,
        p.horizontal is AirSteer <==> !input.grounded,
        p.advance_bob == input.grounded,
        p.quit == input.cancel_pressed,
{
    let vertical = if !input.grounded {
        VerticalAction::Fall
    } else if input.jump_pressed {
        VerticalAction::Jump
    } else {
        VerticalAction::Hold
    };
    let speed_mode = if input.sprint_held {
        SpeedMode::Sprint
    } else {
        SpeedMode::Walk
    };
    let horizontal = if !input.grounded {
        HorizontalBlend::AirSteer
    } else if input.moving {
        HorizontalBlend::Snap
    } else {
        HorizontalBlend::Decay
    };
    TickPlan {
        vertical,
        speed_mode,
        horizontal,
        advance_bob: input.grounded,
        quit: input.cancel_pressed,
    }
}

/// Over any run of ticks in which the character is airborne, no tick
/// advances the head-bob phase: the phase stays frozen for the whole run.
pub proof fn airborne_ticks_freeze_bob(inputs: Seq<TickInput>)
    requires
        forall|i: int| 0 <= i < inputs.len() ==> !(#[trigger] inputs[i]).grounded,
    ensures
        forall|i: int| 0 <= i < inputs.len() ==> !(#[trigger] tick_plan(inputs[i])).advance_bob,
{
}

} // verus!
