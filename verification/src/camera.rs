//! Camera modes and how the keys 1..6 switch between them.
use vstd::prelude::*;

verus! {

/// How the game camera is placed.
#[derive(Clone, Copy, Debug, PartialEq, Eq, Structural)]
pub enum CameraMode {
    Cockpit,
    /// Cockpit, looking along the vehicle's up axis (to the rocket's zenith).
    CockpitUp,
    /// Cockpit, looking against the vehicle's up axis (at the nozzles).
    CockpitDown,
    Chase,
    External,
    Free,
}

impl Default for CameraMode {
    fn default() -> (m: Self)
        ensures
            m == CameraMode::External,
    {
        CameraMode::External
    }
}

/// The mode selected by digit key `i + 1`.
pub open spec fn mode_for_digit(i: int) -> CameraMode {
    if i <= 0 {
        CameraMode::External
    } else if i == 1 {
        CameraMode::CockpitUp
    } else if i == 2 {
        CameraMode::CockpitDown
    } else if i == 3 {
        CameraMode::Cockpit
    } else if i == 4 {
        CameraMode::Chase
    } else {
        CameraMode::Free
    }
}

/// Applies the digit keys 1..6 pressed this frame: with Ctrl held they belong
/// to the debug jumps and the mode is kept; otherwise the highest pressed
/// digit selects the mode, and with no digit pressed the mode is kept.
pub fn switch_camera_mode(mode: CameraMode, ctrl_held: bool, digits_pressed: [bool; 6]) -> (r:
    CameraMode)
    ensures
        ctrl_held ==> r == mode,
        !ctrl_held && (forall|i: int| 0 <= i < 6 ==> !digits_pressed@[i]) ==> r == mode,
        !ctrl_held ==> forall|i: int|
            0 <= i < 6 && digits_pressed@[i] && (forall|j: int| i < j < 6 ==> !digits_pressed@[j])
                ==> r == mode_for_digit(i),
{
    if ctrl_held {
        return mode;
    }
    let mut r = mode;
    let mut i: usize = 0;
    while i < 6
        invariant
            i <= 6,
            (forall|j: int| 0 <= j < i ==> !digits_pressed@[j]) ==> r == mode,
            forall|k: int|
                0 <= k < i && digits_pressed@[k] && (forall|j: int|
                    k < j < i ==> !digits_pressed@[j]) ==> r == mode_for_digit(k),
        decreases 6 - i,
    {
        if digits_pressed[i] {
            r = match i {
                0 => CameraMode::External,
                1 => CameraMode::CockpitUp,
                2 => CameraMode::CockpitDown,
                3 => CameraMode::Cockpit,
                4 => CameraMode::Chase,
                _ => CameraMode::Free,
            };
        }
        i = i + 1;
    }
    r
}

/// Modes in which the mouse orbits the camera around the scene.
pub open spec fn orbits_scene(mode: CameraMode) -> bool {
    mode is External || mode is Free
}

/// Modes in which the camera rides with the player's vehicle.
pub open spec fn rides_vehicle(mode: CameraMode) -> bool {
    mode is Cockpit || mode is CockpitUp || mode is CockpitDown || mode is Chase
}

/// Whether the mouse-driven orbit camera is active in `mode`.
pub fn uses_pan_orbit(mode: CameraMode) -> (r: bool)
    ensures
        r == orbits_scene(mode),
        r == (mode == CameraMode::External || mode == CameraMode::Free),
{
    match mode {
        CameraMode::External | CameraMode::Free => true,
        _ => false,
    }
}

/// Whether the camera follows the player's vehicle in `mode`.
pub fn follows_vehicle(mode: CameraMode) -> (r: bool)
    ensures
        r == rides_vehicle(mode),
        r == (mode == CameraMode::Cockpit || mode == CameraMode::CockpitUp || mode
            == CameraMode::CockpitDown || mode == CameraMode::Chase),
{
    match mode {
        CameraMode::Cockpit | CameraMode::CockpitUp | CameraMode::CockpitDown
        | CameraMode::Chase => true,
        _ => false,
    }
}

/// Law of the camera drivers: the camera rides with the vehicle exactly in the
/// three cockpit views and the chase view, and the mouse orbits it exactly in
/// the external and free views. By key: keys 2 to 5 put the camera on the
/// vehicle, keys 1 and 6 hand it to the mouse.
pub proof fn lemma_camera_drivers(mode: CameraMode)
    ensures
        rides_vehicle(mode) <==> (mode == CameraMode::Cockpit || mode == CameraMode::CockpitUp
            || mode == CameraMode::CockpitDown || mode == CameraMode::Chase),
        orbits_scene(mode) <==> (mode == CameraMode::External || mode == CameraMode::Free),
        forall|i: int|
            0 <= i < 6 ==> (rides_vehicle(#[trigger] mode_for_digit(i)) <==> 1 <= i <= 4),
        forall|i: int| 0 <= i < 6 ==> (orbits_scene(#[trigger] mode_for_digit(i)) <==> (i == 0 || i == 5)),
{
}

/// Law of the digit keys: the six keys select six different modes, and every
/// mode has its key: 1 external, 2 cockpit looking up, 3 cockpit looking
/// down, 4 cockpit, 5 chase, 6 free.
pub proof fn lemma_keys_cover_modes(mode: CameraMode)
    ensures
        forall|i: int, j: int|
            0 <= i < 6 && 0 <= j < 6 && i != j ==> #[trigger] mode_for_digit(i) != #[trigger] mode_for_digit(j),
        exists|i: int| 0 <= i < 6 && #[trigger] mode_for_digit(i) == mode,
        forall|i: int|
            0 <= i < 6 ==> #[trigger] mode_for_digit(i) == seq![
                CameraMode::External,
                CameraMode::CockpitUp,
                CameraMode::CockpitDown,
                CameraMode::Cockpit,
                CameraMode::Chase,
                CameraMode::Free,
            ][i],
{
    if mode == CameraMode::External {
        assert(mode_for_digit(0) == mode);
    } else if mode == CameraMode::CockpitUp {
        assert(mode_for_digit(1) == mode);
    } else if mode == CameraMode::CockpitDown {
        assert(mode_for_digit(2) == mode);
    } else if mode == CameraMode::Cockpit {
        assert(mode_for_digit(3) == mode);
    } else if mode == CameraMode::Chase {
        assert(mode_for_digit(4) == mode);
    } else {
        assert(mode_for_digit(5) == mode);
    }
}

/// Law: in every mode exactly one of the two drives the camera, the mouse
/// orbit or the vehicle.
pub proof fn lemma_one_camera_driver(mode: CameraMode)
    ensures
        orbits_scene(mode) != rides_vehicle(mode),
{
}

} // verus!
