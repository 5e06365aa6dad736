//! What the command line holds, and the checks on it.

use crate::address::lemma_address_by_bytes;
use crate::address::Address;
use crate::address::AddressParseError;
use crate::error::DecodeError;
use crate::mint::MintCommands;
use crate::text::begins_with;
use crate::text::same_text;
use crate::text::starts_with;
use crate::token_account::ixs::AmountParseError;
use crate::token_account::TokenAccountCommands;
use vstd::prelude::*;
use vstd::string::StringExecFns;

verus! {

/// Why the command line, or what was typed at a prompt, is refused.
#[derive(Clone, Debug, PartialEq, Eq)]
pub enum CliError {
    /// No RPC URL was given, neither as an option nor in `SOLANA_RPC_URL`.
    MissingRpcUrl,
    /// The RPC URL does not begin with `https://`.
    InvalidRpcUrl(String),
    /// The text is not the base58 form of an address.
    InvalidPubkey(AddressParseError),
    /// The text names no token program.
    InvalidTokenProgram(String),
    /// The text names no mint instruction.
    InvalidMintInstruction(String),
    /// The text names no token-account instruction.
    InvalidTokenAccountInstruction(String),
    /// A transfer names one account as both source and destination.
    SameSourceAndDestination,
    /// The text is not a whole number that fits in 64 bits.
    InvalidAmount(AmountParseError),
    /// The amount does not fit in 64 bits once scaled by the mint's decimals.
    AmountOverflow,
}

/// What an amount parse error says of itself.
pub open spec fn amount_error_text(reason: AmountParseError) -> Seq<char> {
    match reason {
        AmountParseError::Empty => "cannot parse integer from empty string"@,
        AmountParseError::InvalidDigit => "invalid digit found in string"@,
        AmountParseError::PosOverflow => "number too large to fit in target type"@,
    }
}

/// What an address parse error says of itself.
pub open spec fn parse_error_text(reason: AddressParseError) -> Seq<char> {
    match reason {
        AddressParseError::WrongSize => "String is the wrong size"@,
        AddressParseError::Invalid => "Invalid Base58 string"@,
    }
}

impl CliError {
    /// The line that is shown to the user.
    pub open spec fn spec_message(self) -> Seq<char> {
        match self {
            CliError::MissingRpcUrl => {
                "RPC URL not provided use --solana-rpc-url or set `SOLANA_RPC_URL` env variable"@
            },
            CliError::InvalidRpcUrl(url) => "Invalid RPC URL: "@ + url@,
            CliError::InvalidPubkey(reason) => "Invalid pubkey: "@ + parse_error_text(reason),
            CliError::InvalidTokenProgram(text) => "Invalid token program: "@ + text@,
            CliError::InvalidMintInstruction(text) => "Invalid mint instruction: "@ + text@,
            CliError::InvalidTokenAccountInstruction(text) => "Invalid mint instruction: "@
                + text@,
            CliError::SameSourceAndDestination => "Source and destination accounts are the same"@,
            CliError::InvalidAmount(reason) => amount_error_text(reason),
            CliError::AmountOverflow => "Failed to calculate amount"@,
        }
    }

    /// The line that is shown to the user.
    pub fn message(&self) -> (line: String)
        ensures
            line@ == self.spec_message(),
    {
        match self {
            CliError::MissingRpcUrl => String::from_str(
                "RPC URL not provided use --solana-rpc-url or set `SOLANA_RPC_URL` env variable",
            ),
            CliError::InvalidRpcUrl(url) => String::from_str("Invalid RPC URL: ").concat(
                url.as_str(),
            ),
            CliError::InvalidPubkey(reason) => String::from_str("Invalid pubkey: ").concat(
                match reason {
                    AddressParseError::WrongSize => "String is the wrong size",
                    AddressParseError::Invalid => "Invalid Base58 string",
                },
            ),
            CliError::InvalidTokenProgram(text) => String::from_str(
                "Invalid token program: ",
            ).concat(text.as_str()),
            CliError::InvalidMintInstruction(text) => String::from_str(
                "Invalid mint instruction: ",
            ).concat(text.as_str()),
            CliError::InvalidTokenAccountInstruction(text) => String::from_str(
                "Invalid mint instruction: ",
            ).concat(text.as_str()),
            CliError::SameSourceAndDestination => String::from_str(
                "Source and destination accounts are the same",
            ),
            CliError::InvalidAmount(reason) => String::from_str(
                match reason {
                    AmountParseError::Empty => "cannot parse integer from empty string",
                    AmountParseError::InvalidDigit => "invalid digit found in string",
                    AmountParseError::PosOverflow => "number too large to fit in target type",
                },
            ),
            CliError::AmountOverflow => String::from_str("Failed to calculate amount"),
        }
    }
}

/// The options that every command takes, and the command.
#[derive(Debug)]
pub struct Cli {
    /// Log level: trace, debug, info, warn, error, off
    pub log_level: Option<String>,
    /// RPC URL for the Solana cluster
    pub solana_rpc_url: Option<String>,
    pub command: Commands,
}

/// Where to reach the cluster.
#[derive(Clone, Debug)]
pub struct SolanaRpcArgs {
    pub solana_rpc_url: String,
}

/// What the program is asked to do.
#[derive(Debug)]
pub enum Commands {
    Mint(MintCommands),
    TokenAccount(TokenAccountCommands),
}

/// What is asked of an RPC URL: it must be there and begin with `https://`.
pub open spec fn rpc_url_check(url: Option<String>) -> Result<(), CliError> {
    match url {
        None => Err(CliError::MissingRpcUrl),
        Some(u) => if begins_with(u@, "https://"@) {
            Ok(())
        } else {
            Err(CliError::InvalidRpcUrl(u))
        },
    }
}

impl Cli {
    /// Checks the options before any command runs.
    pub fn validate_args(&self) -> (r: Result<(), CliError>)
        ensures
            r == rpc_url_check(self.solana_rpc_url),
    {
        self._check_rpc_url()
    }

    pub fn _check_rpc_url(&self) -> (r: Result<(), CliError>)
        ensures
            r == rpc_url_check(self.solana_rpc_url),
    {
        match &self.solana_rpc_url {
            Some(url) => {
                if starts_with(url.as_str(), "https://") {
                    Ok(())
                } else {
                    Err(CliError::InvalidRpcUrl(url.clone()))
                }
            },
            None => Err(CliError::MissingRpcUrl),
        }
    }

    /// What a parsed address, or the failure to parse one, becomes for the
    /// command line.
    pub fn pubkey_outcome(parsed: Result<Address, AddressParseError>) -> (r: Result<
        Address,
        CliError,
    >)
        ensures
            r == match parsed {
                Ok(address) => Ok::<Address, CliError>(address),
                Err(reason) => Err(CliError::InvalidPubkey(reason)),
            },
    {
        match parsed {
            Ok(address) => Ok(address),
            Err(reason) => Err(CliError::InvalidPubkey(reason)),
        }
    }

    /// Reads an address from its base58 text form.
    pub fn parse_pubkey(pubkey_str: &str) -> (r: Result<Address, CliError>)
        ensures
            r == match crate::address::base58_address(pubkey_str@) {
                Ok(address) => Ok::<Address, CliError>(address),
                Err(reason) => Err(CliError::InvalidPubkey(reason)),
            },
    {
        Cli::pubkey_outcome(Address::parse(pubkey_str))
    }
}

/// The two token programs. An account's owner names the one that defines
/// how the account's bytes are laid out.
#[derive(Clone, Copy, Debug, PartialEq, Eq, Structural)]
pub enum TokenProgram {
    /// The program whose accounts may carry extension records.
    Token2022,
    /// The program whose accounts have the fixed layout only.
    LegacyToken,
}

/// The 32 bytes of the address `TokenkegQfeZyiNwAJbNbGKPFXCWuBvf9Ss623VQ5DA`.
pub open spec fn legacy_token_id() -> Seq<u8> {
    seq![
        6u8, 221u8, 246u8, 225u8, 215u8, 101u8, 161u8, 147u8, 217u8, 203u8, 225u8, 70u8, 206u8,
        235u8, 121u8, 172u8, 28u8, 180u8, 133u8, 237u8, 95u8, 91u8, 55u8, 145u8, 58u8, 140u8,
        245u8, 133u8, 126u8, 255u8, 0u8, 169u8,
    ]
}

/// The 32 bytes of the address `TokenzQdBNbLqP5VEhdkAS6EPFLC1PHnBqCXEpPxuEb`.
pub open spec fn token_2022_id() -> Seq<u8> {
    seq![
        6u8, 221u8, 246u8, 225u8, 238u8, 117u8, 143u8, 222u8, 24u8, 66u8, 93u8, 188u8, 228u8,
        108u8, 205u8, 218u8, 182u8, 26u8, 252u8, 77u8, 131u8, 185u8, 13u8, 39u8, 254u8, 189u8,
        249u8, 40u8, 216u8, 161u8, 139u8, 252u8,
    ]
}

/// Reads the constant `spl_token::ID`. The contract claims that it is the
/// address written `TokenkegQfeZyiNwAJbNbGKPFXCWuBvf9Ss623VQ5DA` in base58,
/// as the crate declares it.
#[verifier::external_body]
fn spl_token_id() -> (id: Address)
    ensures
        id@ == legacy_token_id(),
{
    Address { bytes: spl_token::ID.to_bytes() }
}

/// Reads the constant `spl_token_2022::ID`. The contract claims that it is
/// the address written `TokenzQdBNbLqP5VEhdkAS6EPFLC1PHnBqCXEpPxuEb` in
/// base58, as the crate declares it.
#[verifier::external_body]
fn spl_token_2022_id() -> (id: Address)
    ensures
        id@ == token_2022_id(),
{
    Address { bytes: spl_token_2022::ID.to_bytes() }
}

/// The program that an owner address names, if it names one of the two.
pub open spec fn resolved(owner: Address) -> Result<TokenProgram, DecodeError> {
    if owner@ == legacy_token_id() {
        Ok(TokenProgram::LegacyToken)
    } else if owner@ == token_2022_id() {
        Ok(TokenProgram::Token2022)
    } else {
        Err(DecodeError::UnrecognizedOwner { owner })
    }
}

/// The token program that a prompt's entry names, if it names one.
pub open spec fn token_program_named(text: Seq<char>) -> Option<TokenProgram> {
    if text == "Token2022"@ {
        Some(TokenProgram::Token2022)
    } else if text == "LegacyToken"@ {
        Some(TokenProgram::LegacyToken)
    } else {
        None
    }
}

impl TokenProgram {
    /// The entry under which a prompt offers this program.
    pub open spec fn select_name(self) -> Seq<char> {
        match self {
            TokenProgram::Token2022 => "Token2022"@,
            TokenProgram::LegacyToken => "LegacyToken"@,
        }
    }

    /// The address that this variant turns into when an instruction is
    /// built for it: that of the legacy program for `Token2022`, and that of
    /// the extensible program for `LegacyToken`.
    pub open spec fn spec_program_address(self) -> Seq<u8> {
        match self {
            TokenProgram::Token2022 => legacy_token_id(),
            TokenProgram::LegacyToken => token_2022_id(),
        }
    }

    /// Picks the layout by the owner of an account. Any owner but the two
    /// token programs is refused.
    pub fn resolve(owner: &Address) -> (r: Result<TokenProgram, DecodeError>)
        ensures
            r == resolved(*owner),
    {
        let legacy = spl_token_id();
        let extensible = spl_token_2022_id();
        proof {
            lemma_address_by_bytes(*owner, legacy);
            lemma_address_by_bytes(*owner, extensible);
        }
        if *owner == legacy {
            Ok(TokenProgram::LegacyToken)
        } else if *owner == extensible {
            Ok(TokenProgram::Token2022)
        } else {
            Err(DecodeError::UnrecognizedOwner { owner: *owner })
        }
    }

    /// The address that this variant turns into when an instruction is
    /// built for it.
    pub fn program_address(self) -> (id: Address)
        ensures
            id@ == self.spec_program_address(),
    {
        match self {
            TokenProgram::Token2022 => spl_token_id(),
            TokenProgram::LegacyToken => spl_token_2022_id(),
        }
    }

    /// The entries that a prompt offers, in the order of the variants.
    pub fn _to_select_vec() -> (entries: Vec<&'static str>)
        ensures
            entries@.len() == 2,
            entries@[0]@ == TokenProgram::Token2022.select_name(),
            entries@[1]@ == TokenProgram::LegacyToken.select_name(),
    {
        vec!["Token2022", "LegacyToken"]
    }

    /// The program that a prompt's entry names.
    pub fn _from_select_str(select_str: &str) -> (r: Result<TokenProgram, CliError>)
        ensures
            match token_program_named(select_str@) {
                Some(program) => r == Ok::<TokenProgram, CliError>(program),
                None => r matches Err(CliError::InvalidTokenProgram(text)) && text@
                    == select_str@,
            },
    {
        if same_text(select_str, "Token2022") {
            Ok(TokenProgram::Token2022)
        } else if same_text(select_str, "LegacyToken") {
            Ok(TokenProgram::LegacyToken)
        } else {
            Err(CliError::InvalidTokenProgram(String::from_str(select_str)))
        }
    }
}

/// Each token program is found again under the entry that a prompt offers
/// for it.
pub proof fn lemma_token_program_names(program: TokenProgram)
    ensures
        token_program_named(program.select_name()) == Some(program),
{
    reveal_strlit("Token2022");
    reveal_strlit("LegacyToken");
    assert("Token2022"@.len() != "LegacyToken"@.len());
}

/// The two token programs have different addresses, so an owner names at most
/// one of them; and the address that a variant turns into resolves to the
/// other variant.
pub proof fn lemma_program_addresses(program: TokenProgram, id: Address)
    requires
        id@ == program.spec_program_address(),
    ensures
        legacy_token_id() != token_2022_id(),
        resolved(id) == Ok::<TokenProgram, DecodeError>(
            match program {
                TokenProgram::Token2022 => TokenProgram::LegacyToken,
                TokenProgram::LegacyToken => TokenProgram::Token2022,
            },
        ),
{
    assert(legacy_token_id()[4] != token_2022_id()[4]);
}

} // verus!
