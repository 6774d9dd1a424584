//! The post-processing control panel: the tone mapping choices it offers and
//! how buttons react to the pointer.
use vstd::prelude::*;

verus! {

/// How the pointer currently interacts with a button.
#[derive(Clone, Copy, Debug, PartialEq, Eq, Structural, Hash)]
pub enum ButtonInteraction {
    Pressed,
    Hovered,
    Idle,
}

/// The tone mapping operators offered, by name and shader id.
pub open spec fn spec_tone_mapping_options() -> Seq<(Seq<char>, u32)> {
    seq![("None"@, 0u32), ("ACES"@, 1u32), ("Reinhard"@, 2u32), ("Uncharted2"@, 3u32)]
}

/// The tone mapping buttons of the panel, in display order.
pub fn tone_mapping_options() -> (options: Vec<(String, u32)>)
    ensures
        options@.len() == spec_tone_mapping_options().len(),
        forall|i: int|
            0 <= i < options@.len() ==> (#[trigger] options@[i]).0@
                == spec_tone_mapping_options()[i].0 && options@[i].1
                == spec_tone_mapping_options()[i].1,
{
    let mut options: Vec<(String, u32)> = Vec::new();
    options.push((String::from_str("None"), 0));
    options.push((String::from_str("ACES"), 1));
    options.push((String::from_str("Reinhard"), 2));
    options.push((String::from_str("Uncharted2"), 3));
    options
}

/// Each button selects a different operator, and the ids run from 0 to 3 in
/// display order.
pub proof fn lemma_tone_mapping_ids(i: int)
    requires
        0 <= i < spec_tone_mapping_options().len(),
    ensures
        spec_tone_mapping_options()[i].1 == i,
{
}

/// The grey level of a button's background, in hundredths: darkest when idle,
/// lighter when hovered, lightest while pressed.
pub open spec fn spec_button_grey(interaction: ButtonInteraction) -> u8 {
    match interaction {
        ButtonInteraction::Pressed => 30,
        ButtonInteraction::Hovered => 25,
        ButtonInteraction::Idle => 20,
    }
}

/// The grey level of a button's background, in hundredths of full
/// brightness, for the pointer interaction.
pub fn button_grey(interaction: ButtonInteraction) -> (grey: u8)
    ensures
        grey == spec_button_grey(interaction),
{
    match interaction {
        ButtonInteraction::Pressed => 30,
        ButtonInteraction::Hovered => 25,
        ButtonInteraction::Idle => 20,
    }
}

/// The tone mapping after an interaction with a tone mapping button: a press
/// selects the button's operator, anything else keeps the current one.
pub fn handle_tone_mapping_button(interaction: ButtonInteraction, button_id: u32, current: u32) -> (t:
    u32)
    ensures
        interaction == ButtonInteraction::Pressed ==> t == button_id,
        interaction != ButtonInteraction::Pressed ==> t == current,
{
    match interaction {
        ButtonInteraction::Pressed => button_id,
        _ => current,
    }
}

} // verus!
