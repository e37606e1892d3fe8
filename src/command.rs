use serenity::model::application::interaction::application_command::CommandDataOption;
use vstd::prelude::*;

verus! {

#[verifier::external_type_specification]
#[verifier::external_body]
pub struct ExCommandDataOption(CommandDataOption);

/// The answer to the plain `quote` command, whatever its options.
pub fn run(_options: &[CommandDataOption]) -> (r: String)
    ensures
        r@ == "TEST QUOTE"@,
{
    String::from_str("TEST QUOTE")
}

} // verus!
