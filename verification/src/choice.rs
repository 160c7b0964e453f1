//! The choice-prompt bridge: the abstract widget state offered to the player
//! when an action set requires a decision, and the click protocol that
//! resolves it.
//!
//! The rendering of the prompt and the pointer tracking live with an external
//! collaborator; it reports which widget the pointer is on, and the engine
//! decides every state change.

use vstd::prelude::*;
use crate::actions::ActionSet;
use crate::states::GameStates;

verus! {

/// The root of an open choice prompt: carries the finished flag that resumes
/// the suspended routine.
#[derive(Copy, Clone, Debug, PartialEq, Eq, Structural)]
pub struct ChoiceRoot {
    pub finished: bool,
}

/// One selectable option of the prompt.
#[derive(Copy, Clone, Debug, PartialEq, Eq, Structural)]
pub struct ChoiceButton {
    pub selected: bool,
    pub index: u8,
}

/// The confirm button, present only on prompts that allow several picks.
#[derive(Copy, Clone, Debug, PartialEq, Eq, Structural)]
pub struct ValidateButton;

/// The decline ("do nothing") option.
#[derive(Copy, Clone, Debug, PartialEq, Eq, Structural)]
pub struct ChoiceButtonNone {
    pub selected: bool,
}

/// The widget the pointer is on.
#[derive(Copy, Clone, Debug, PartialEq, Eq, Structural)]
pub enum ChoiceTarget {
    /// The option button at this position.
    Entry(u8),
    /// The decline button.
    Decline,
    /// The confirm button.
    Validate,
}

/// An open choice prompt: its root, its option buttons, and the optional
/// decline and confirm buttons.
#[derive(Clone, Debug)]
pub struct ChoicePrompt {
    pub root: ChoiceRoot,
    pub buttons: Vec<ChoiceButton>,
    pub none_button: Option<ChoiceButtonNone>,
    pub validate: Option<ValidateButton>,
}

/// The mathematical state of a prompt.
pub ghost struct PromptView {
    pub finished: bool,
    pub buttons: Seq<ChoiceButton>,
    pub none_button: Option<ChoiceButtonNone>,
    pub has_validate: bool,
}

impl ChoicePrompt {
    /// The prompt's mathematical state.
    pub open spec fn view(&self) -> PromptView {
        PromptView {
            finished: self.root.finished,
            buttons: self.buttons@,
            none_button: self.none_button,
            has_validate: self.validate is Some,
        }
    }
}

/// The prompt spawned for an action set, if the set requires a decision: an
/// optional action offers one button and decline; a pick-any-of-two offers
/// both buttons, decline and confirm; an exclusive choice offers exactly the
/// two buttons.
pub open spec fn spec_spawn_choices(set: ActionSet) -> Option<PromptView> {
    match set {
        ActionSet::Optional(_) => Some(PromptView {
            finished: false,
            buttons: seq![ChoiceButton { selected: false, index: 0 }],
            none_button: Some(ChoiceButtonNone { selected: false }),
            has_validate: false,
        }),
        ActionSet::OneAndOptional(_, _) => Some(PromptView {
            finished: false,
            buttons: seq![ChoiceButton { selected: false, index: 0 }],
            none_button: Some(ChoiceButtonNone { selected: false }),
            has_validate: false,
        }),
        ActionSet::AnyOf2(_, _) => Some(PromptView {
            finished: false,
            buttons: seq![
                ChoiceButton { selected: false, index: 0 },
                ChoiceButton { selected: false, index: 1 },
            ],
            none_button: Some(ChoiceButtonNone { selected: false }),
            has_validate: true,
        }),
        ActionSet::OneOf2(_, _) => Some(PromptView {
            finished: false,
            buttons: seq![
                ChoiceButton { selected: false, index: 0 },
                ChoiceButton { selected: false, index: 1 },
            ],
            none_button: None,
            has_validate: false,
        }),
        _ => None,
    }
}

/// Builds the prompt for an action set, or none for sets that resolve without
/// a decision.
pub fn spawn_choices(set: ActionSet) -> (r: Option<ChoicePrompt>)
    ensures
        match spec_spawn_choices(set) {
            Some(v) => r matches Some(p) && p@ == v,
            None => r is None,
        },
{
    match set {
        ActionSet::Optional(_) | ActionSet::OneAndOptional(_, _) => {
            let mut buttons: Vec<ChoiceButton> = Vec::new();
            buttons.push(ChoiceButton { selected: false, index: 0 });
            let p = ChoicePrompt {
                root: ChoiceRoot { finished: false },
                buttons,
                none_button: Some(ChoiceButtonNone { selected: false }),
                validate: None,
            };
            proof {
                assert(p@.buttons =~= spec_spawn_choices(set).unwrap().buttons);
            }
            Some(p)
        },
        ActionSet::AnyOf2(_, _) => {
            let mut buttons: Vec<ChoiceButton> = Vec::new();
            buttons.push(ChoiceButton { selected: false, index: 0 });
            buttons.push(ChoiceButton { selected: false, index: 1 });
            let p = ChoicePrompt {
                root: ChoiceRoot { finished: false },
                buttons,
                none_button: Some(ChoiceButtonNone { selected: false }),
                validate: Some(ValidateButton),
            };
            proof {
                assert(p@.buttons =~= spec_spawn_choices(set).unwrap().buttons);
            }
            Some(p)
        },
        ActionSet::OneOf2(_, _) => {
            let mut buttons: Vec<ChoiceButton> = Vec::new();
            buttons.push(ChoiceButton { selected: false, index: 0 });
            buttons.push(ChoiceButton { selected: false, index: 1 });
            let p = ChoicePrompt {
                root: ChoiceRoot { finished: false },
                buttons,
                none_button: None,
                validate: None,
            };
            proof {
                assert(p@.buttons =~= spec_spawn_choices(set).unwrap().buttons);
            }
            Some(p)
        },
        _ => None,
    }
}

/// A small counter bumped by one, stopping at the type's limit.
pub open spec fn sat_inc_u8(x: u8) -> u8 {
    if x + 1 <= u8::MAX { (x + 1) as u8 } else { x }
}

/// The option buttons after a click resolved to `hit` on a single-pick
/// prompt: every button except the hit one is deselected.
pub open spec fn spec_deselect_others(buttons: Seq<ChoiceButton>, hit: u8) -> Seq<ChoiceButton> {
    Seq::new(
        buttons.len(),
        |i: int| if sat_inc_u8(buttons[i].index) == hit {
            buttons[i]
        } else {
            ChoiceButton { selected: false, index: buttons[i].index }
        },
    )
}

/// The prompt and mode after one click, given the hovered widget. A hovered
/// confirm button finishes a multi-pick prompt; otherwise the hovered option
/// or decline button toggles, and on a single-pick prompt a toggle that
/// selects settles the choice: all other options deselect, the prompt
/// finishes, and the mode returns to the main loop.
pub open spec fn spec_choice_clicks(
    v: PromptView,
    hovered: Option<ChoiceTarget>,
    mode: GameStates,
) -> (PromptView, GameStates) {
    let multi = v.has_validate;
    let finished0 = v.finished || (multi && hovered == Some(ChoiceTarget::Validate));
    if finished0 {
        (PromptView { finished: true, ..v }, GameStates::MainLoop)
    } else {
        let step = spec_choice_toggle(v, hovered);
        let v1 = step.0;
        let hit = step.1;
        match hit {
            Some(h) => if !multi {
                (
                    PromptView {
                        finished: true,
                        buttons: spec_deselect_others(v1.buttons, h),
                        none_button: if h != 0 {
                            match v1.none_button {
                                Some(_) => Some(ChoiceButtonNone { selected: false }),
                                None => None,
                            }
                        } else {
                            v1.none_button
                        },
                        ..v1
                    },
                    GameStates::MainLoop,
                )
            } else {
                (v1, mode)
            },
            None => (v1, mode),
        }
    }
}

/// The toggle a click applies to the hovered widget of an unfinished prompt,
/// and the settled pick if the toggle selected it: the hit option's one-based
/// index, or zero for the decline button.
pub open spec fn spec_choice_toggle(
    v: PromptView,
    hovered: Option<ChoiceTarget>,
) -> (PromptView, Option<u8>) {
    match hovered {
        Some(ChoiceTarget::Entry(pos)) => if pos < v.buttons.len() {
            let b = v.buttons[pos as int];
            let nb = ChoiceButton { selected: !b.selected, index: b.index };
            let v1 = PromptView { buttons: v.buttons.update(pos as int, nb), ..v };
            (v1, if nb.selected { Some(sat_inc_u8(b.index)) } else { None })
        } else {
            (v, None)
        },
        Some(ChoiceTarget::Decline) => match v.none_button {
            Some(nb) => {
                let v1 = PromptView {
                    none_button: Some(ChoiceButtonNone { selected: !nb.selected }),
                    ..v
                };
                (v1, if !nb.selected { Some(0u8) } else { None })
            },
            None => (v, None),
        },
        _ => (v, None),
    }
}

/// Applies one click to an open prompt, given the hovered widget, updating
/// the interaction mode when the click finishes the prompt.
pub fn handle_choice_clicks(
    prompt: &mut ChoicePrompt,
    hovered: Option<ChoiceTarget>,
    mode: &mut GameStates,
)
    ensures
        final(prompt)@.finished == spec_choice_clicks(old(prompt)@, hovered, *old(mode)).0.finished,
        final(prompt)@.buttons == spec_choice_clicks(old(prompt)@, hovered, *old(mode)).0.buttons,
        final(prompt)@.none_button == spec_choice_clicks(old(prompt)@, hovered, *old(mode)).0.none_button,
        final(prompt)@.has_validate == spec_choice_clicks(old(prompt)@, hovered, *old(mode)).0.has_validate,
        *final(mode) == spec_choice_clicks(old(prompt)@, hovered, *old(mode)).1,
{
    let multi = prompt.validate.is_some();
    if multi {
        match hovered {
            Some(ChoiceTarget::Validate) => {
                prompt.root.finished = true;
            },
            _ => {},
        }
    }
    if prompt.root.finished {
        *mode = GameStates::MainLoop;
        return;
    }
    let mut hit: Option<u8> = None;
    match hovered {
        Some(ChoiceTarget::Entry(pos)) => {
            if (pos as usize) < prompt.buttons.len() {
                let b = prompt.buttons[pos as usize];
                let nb = ChoiceButton { selected: !b.selected, index: b.index };
                prompt.buttons.set(pos as usize, nb);
                if nb.selected {
                    hit = Some(b.index.saturating_add(1));
                }
            }
        },
        Some(ChoiceTarget::Decline) => {
            match prompt.none_button {
                Some(nb) => {
                    prompt.none_button = Some(ChoiceButtonNone { selected: !nb.selected });
                    if !nb.selected {
                        hit = Some(0);
                    }
                },
                None => {},
            }
        },
        _ => {},
    }
    match hit {
        Some(h) => {
            if !multi {
                let ghost toggled = spec_choice_toggle(old(prompt)@, hovered).0;
                let mut i: usize = 0;
                while i < prompt.buttons.len()
                    invariant
                        i <= prompt.buttons@.len(),
                        prompt.root == old(prompt).root,
                        prompt.none_button == toggled.none_button,
                        prompt.validate == old(prompt).validate,
                        prompt.buttons@.len() == toggled.buttons.len(),
                        forall|j: int| i <= j < prompt.buttons@.len()
                            ==> prompt.buttons@[j] == toggled.buttons[j],
                        forall|j: int| 0 <= j < i ==> prompt.buttons@[j]
                            == spec_deselect_others(toggled.buttons, h)[j],
                    decreases prompt.buttons@.len() - i,
                {
                    let b = prompt.buttons[i];
                    if b.index.saturating_add(1) != h {
                        prompt.buttons.set(i, ChoiceButton { selected: false, index: b.index });
                    }
                    i = i + 1;
                }
                proof {
                    assert(prompt.buttons@ =~= spec_deselect_others(toggled.buttons, h));
                }
                if h != 0 {
                    match prompt.none_button {
                        Some(_) => {
                            prompt.none_button = Some(ChoiceButtonNone { selected: false });
                        },
                        None => {},
                    }
                }
                prompt.root.finished = true;
                *mode = GameStates::MainLoop;
            }
        },
        None => {},
    }
}

/// The highlight state the renderer should show: one flag per option button,
/// one for the decline button, one for the confirm button; a widget is
/// highlighted exactly while the pointer is on it.
pub fn handle_choice_hover(prompt: &ChoicePrompt, hovered: Option<ChoiceTarget>)
    -> (r: (Vec<bool>, bool, bool))
    requires
        prompt@.buttons.len() <= u8::MAX,
    ensures
        r.0@.len() == prompt@.buttons.len(),
        forall|i: int| 0 <= i < r.0@.len()
            ==> r.0@[i] == (hovered == Some(ChoiceTarget::Entry(i as u8))),
        r.1 == (hovered == Some(ChoiceTarget::Decline)),
        r.2 == (hovered == Some(ChoiceTarget::Validate)),
{
    let mut entries: Vec<bool> = Vec::new();
    let mut i: usize = 0;
    while i < prompt.buttons.len()
        invariant
            prompt@.buttons.len() <= u8::MAX,
            i <= prompt@.buttons.len(),
            entries@.len() == i,
            forall|j: int| 0 <= j < i
                ==> entries@[j] == (hovered == Some(ChoiceTarget::Entry(j as u8))),
        decreases prompt@.buttons.len() - i,
    {
        let flag = match hovered {
            Some(ChoiceTarget::Entry(pos)) => pos as usize == i,
            _ => false,
        };
        entries.push(flag);
        i = i + 1;
    }
    let decline = match hovered {
        Some(ChoiceTarget::Decline) => true,
        _ => false,
    };
    let validate = match hovered {
        Some(ChoiceTarget::Validate) => true,
        _ => false,
    };
    (entries, decline, validate)
}

} // verus!

