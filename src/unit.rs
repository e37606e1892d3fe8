use crate::decimal::{decimal, decimal_of};
use vstd::prelude::*;

verus! {

/// The service unit text for running the bot with the given token, optional
/// database path and optional guild id. The options follow the token as they
/// are, with no separator before them.
pub open spec fn unit_text(tok: Seq<char>, db: Option<Seq<char>>, guild: Option<u64>) -> Seq<char> {
    "[Unit]\nDescription=Discord quote bot\n[Service]\nExecStart=/usr/bin/discord_quote_bot --token "@
        + tok + match db {
        Some(d) => "--database "@ + d,
        None => Seq::empty(),
    } + match guild {
        Some(g) => "--guild "@ + decimal_of(g as nat),
        None => Seq::empty(),
    } + "\n[Install]\nWantedBy=multi-user.target"@
}

/// A systemd unit that starts the bot with these options, as `unit_text` gives it.
pub fn systemd_unit(tok: &str, db: &Option<String>, guild: Option<u64>) -> (unit: String)
    ensures
        unit@ == unit_text(
            tok@,
            match db {
                Some(d) => Some(d@),
                None => None,
            },
            guild,
        ),
{
    let mut unit = String::from_str(
        "[Unit]\nDescription=Discord quote bot\n[Service]\nExecStart=/usr/bin/discord_quote_bot --token ",
    );
    unit.append(tok);
    if let Some(database) = db {
        unit.append("--database ");
        unit.append(database.as_str());
    }
    if let Some(g) = guild {
        unit.append("--guild ");
        let digits = decimal(g);
        unit.append(digits.as_str());
    }
    unit.append("\n[Install]\nWantedBy=multi-user.target");
    assert(unit@ =~= unit_text(
        tok@,
        match db {
            Some(d) => Some(d@),
            None => None,
        },
        guild,
    ));
    unit
}

} // verus!
