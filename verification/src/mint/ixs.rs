//! The instructions that a prompt offers for a mint.

use crate::cli::CliError;
use crate::text::same_text;
use vstd::prelude::*;
use vstd::string::StringExecFns;

verus! {

/// The instructions on a mint that a prompt offers.
#[derive(Clone, Copy, Debug, PartialEq, Eq, Structural)]
pub enum MintInstructions {
    InitializeMint,
    SetAuthority,
    MintTo,
    MintToChecked,
    InitilaizeMint2,
}

/// The mint instruction that a prompt's entry names, if it names one.
pub open spec fn mint_instruction_named(text: Seq<char>) -> Option<MintInstructions> {
    if text == "InitializeMint"@ {
        Some(MintInstructions::InitializeMint)
    } else if text == "SetAuthority"@ {
        Some(MintInstructions::SetAuthority)
    } else if text == "MintTo"@ {
        Some(MintInstructions::MintTo)
    } else if text == "MintToChecked"@ {
        Some(MintInstructions::MintToChecked)
    } else if text == "InitilaizeMint2"@ {
        Some(MintInstructions::InitilaizeMint2)
    } else {
        None
    }
}

impl MintInstructions {
    /// The entry under which a prompt offers this instruction.
    pub open spec fn select_name(self) -> Seq<char> {
        match self {
            MintInstructions::InitializeMint => "InitializeMint"@,
            MintInstructions::SetAuthority => "SetAuthority"@,
            MintInstructions::MintTo => "MintTo"@,
            MintInstructions::MintToChecked => "MintToChecked"@,
            MintInstructions::InitilaizeMint2 => "InitilaizeMint2"@,
        }
    }

    /// The entries that a prompt offers, in the order of the variants.
    pub fn to_select_vec() -> (entries: Vec<&'static str>)
        ensures
            entries@.len() == 5,
            entries@[0]@ == MintInstructions::InitializeMint.select_name(),
            entries@[1]@ == MintInstructions::SetAuthority.select_name(),
            entries@[2]@ == MintInstructions::MintTo.select_name(),
            entries@[3]@ == MintInstructions::MintToChecked.select_name(),
            entries@[4]@ == MintInstructions::InitilaizeMint2.select_name(),
    {
        vec!["InitializeMint", "SetAuthority", "MintTo", "MintToChecked", "InitilaizeMint2"]
    }

    /// The instruction that a prompt's entry names.
    pub fn from_select_str(select_str: &str) -> (r: Result<MintInstructions, CliError>)
        ensures
            match mint_instruction_named(select_str@) {
                Some(instruction) => r == Ok::<MintInstructions, CliError>(instruction),
                None => r matches Err(CliError::InvalidMintInstruction(text)) && text@
                    == select_str@,
            },
    {
        if same_text(select_str, "InitializeMint") {
            Ok(MintInstructions::InitializeMint)
        } else if same_text(select_str, "SetAuthority") {
            Ok(MintInstructions::SetAuthority)
        } else if same_text(select_str, "MintTo") {
            Ok(MintInstructions::MintTo)
        } else if same_text(select_str, "MintToChecked") {
            Ok(MintInstructions::MintToChecked)
        } else if same_text(select_str, "InitilaizeMint2") {
            Ok(MintInstructions::InitilaizeMint2)
        } else {
            Err(CliError::InvalidMintInstruction(String::from_str(select_str)))
        }
    }
}

/// Each mint instruction is found again under the entry that a prompt offers
/// for it.
pub proof fn lemma_mint_instruction_names(instruction: MintInstructions)
    ensures
        mint_instruction_named(instruction.select_name()) == Some(instruction),
{
    reveal_strlit("InitializeMint");
    reveal_strlit("SetAuthority");
    reveal_strlit("MintTo");
    reveal_strlit("MintToChecked");
    reveal_strlit("InitilaizeMint2");
    assert("InitializeMint"@.len() == 14);
    assert("SetAuthority"@.len() == 12);
    assert("MintTo"@.len() == 6);
    assert("MintToChecked"@.len() == 13);
    assert("InitilaizeMint2"@.len() == 15);
}

} // verus!
