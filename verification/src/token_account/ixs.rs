//! The instructions that a prompt offers for a token account, and the checks
//! on a transfer before it is sent.

use crate::address::lemma_address_by_bytes;
use crate::address::Address;
use crate::bytes::u64_bytes;
use crate::cli::legacy_token_id;
use crate::cli::token_2022_id;
use crate::cli::CliError;
use crate::cli::TokenProgram;
use crate::text::decimal;
use crate::text::digit_char;
use crate::text::same_text;
use spl_pod::solana_pubkey::Pubkey;
use vstd::prelude::*;
use vstd::string::StrSliceExecFns;
use vstd::string::StringExecFns;

verus! {

/// The instructions on a token account that a prompt offers.
#[derive(Clone, Copy, Debug, PartialEq, Eq, Structural)]
pub enum TokenAccountInstructions {
    Create,
    Transfer,
}

/// The token-account instruction that a prompt's entry names, if it names
/// one.
pub open spec fn account_instruction_named(text: Seq<char>) -> Option<TokenAccountInstructions> {
    if text == "Create"@ {
        Some(TokenAccountInstructions::Create)
    } else if text == "Transfer"@ {
        Some(TokenAccountInstructions::Transfer)
    } else {
        None
    }
}

/// Ten to the power `exponent`.
pub open spec fn pow10(exponent: nat) -> nat
    decreases exponent,
{
    if exponent == 0 {
        1
    } else {
        10 * pow10((exponent - 1) as nat)
    }
}

/// An amount given in whole tokens as an amount in the smallest unit of a
/// mint with `decimals` decimal places, where that fits in 64 bits.
pub open spec fn scaled_amount(amount: u64, decimals: u8) -> Result<u64, CliError> {
    if amount * pow10(decimals as nat) <= u64::MAX {
        Ok((amount * pow10(decimals as nat)) as u64)
    } else {
        Err(CliError::AmountOverflow)
    }
}

/// Whether `c` is one of the ten decimal digits.
pub open spec fn is_digit(c: char) -> bool {
    '0' <= c <= '9'
}

/// The number that a run of decimal digits writes.
pub open spec fn digits_value(digits: Seq<char>) -> nat
    decreases digits.len(),
{
    if digits.len() == 0 {
        0
    } else {
        (10 * digits_value(digits.drop_last()) + (digits.last() as u32 - '0' as u32)) as nat
    }
}

/// A text without the `+` that may stand before its digits.
pub open spec fn unsigned_part(text: Seq<char>) -> Seq<char> {
    if text.len() > 0 && text[0] == '+' {
        text.drop_first()
    } else {
        text
    }
}

/// Whether every character of `s` is a decimal digit.
pub open spec fn all_digits(s: Seq<char>) -> bool {
    forall|i: int| 0 <= i < s.len() ==> is_digit(#[trigger] s[i])
}

/// Why a text is no amount.
#[derive(Clone, Copy, Debug, PartialEq, Eq, Structural)]
pub enum AmountParseError {
    /// The text is empty.
    Empty,
    /// The text holds something else than an optional `+` and digits.
    InvalidDigit,
    /// The digits write a number that does not fit in 64 bits.
    PosOverflow,
}

/// Whether the first `k` characters of `digits` can be read: they are all
/// digits and write a number that fits in 64 bits.
pub open spec fn readable(digits: Seq<char>, k: int) -> bool {
    all_digits(digits.subrange(0, k)) && digits_value(digits.subrange(0, k)) <= u64::MAX
}

/// The amount that a text writes: an optional `+`, then one or more decimal
/// digits and nothing else, where the number fits in 64 bits. Otherwise the
/// text is read from the left up to the first character that cannot be
/// taken: that character is either no digit, or a digit that makes the
/// number too large.
pub open spec fn amount_of(text: Seq<char>) -> Result<u64, AmountParseError> {
    let digits = unsigned_part(text);
    if text.len() == 0 {
        Err(AmountParseError::Empty)
    } else if digits.len() == 0 {
        Err(AmountParseError::InvalidDigit)
    } else if readable(digits, digits.len() as int) {
        Ok(digits_value(digits) as u64)
    } else if exists|k: int|
        0 <= k < digits.len() && #[trigger] readable(digits, k) && !is_digit(digits[k]) {
        Err(AmountParseError::InvalidDigit)
    } else {
        Err(AmountParseError::PosOverflow)
    }
}

proof fn lemma_digits_value_grows(digits: Seq<char>, k: int)
    requires
        0 <= k <= digits.len(),
        all_digits(digits),
    ensures
        digits_value(digits.subrange(0, k)) <= digits_value(digits),
    decreases digits.len() - k,
{
    if k == digits.len() {
        assert(digits.subrange(0, k) =~= digits);
    } else {
        let longer = digits.subrange(0, k + 1);
        assert(longer.drop_last() =~= digits.subrange(0, k));
        assert(is_digit(digits[k]));
        assert(longer.last() == digits[k]);
        lemma_digits_value_grows(digits, k + 1);
    }
}

/// Where the first `at + 1` characters of `digits` are digits that write a
/// number too large, no longer run of them can be read, and every character
/// before the one at `at` is a digit.
proof fn lemma_too_large(digits: Seq<char>, at: int)
    requires
        0 <= at < digits.len(),
        all_digits(digits.subrange(0, at + 1)),
        digits_value(digits.subrange(0, at + 1)) > u64::MAX,
    ensures
        !readable(digits, digits.len() as int),
        !exists|k: int|
            0 <= k < digits.len() && #[trigger] readable(digits, k) && !is_digit(digits[k]),
{
    let fault = digits.subrange(0, at + 1);
    assert forall|k: int| 0 <= k <= digits.len() && #[trigger] readable(digits, k) implies k
        <= at by {
        if k > at {
            let run = digits.subrange(0, k);
            assert(run.subrange(0, at + 1) =~= fault);
            lemma_digits_value_grows(run, at + 1);
        }
    }
    assert forall|k: int| 0 <= k < digits.len() && #[trigger] readable(digits, k) implies is_digit(
        digits[k],
    ) by {
        assert(k <= at);
        assert(fault[k] == digits[k]);
    }
}

/// One account that an instruction names, and what the instruction needs of
/// it.
#[derive(Clone, Copy, Debug, PartialEq, Eq)]
pub struct AccountRef {
    pub address: Address,
    pub is_signer: bool,
    pub is_writable: bool,
}

/// An instruction ready to be put into a transaction: the program that runs
/// it, the accounts it names, and its data.
#[derive(Clone, Debug, PartialEq, Eq)]
pub struct InstructionData {
    pub program_id: Address,
    pub accounts: Vec<AccountRef>,
    pub data: Vec<u8>,
}

/// What an instruction holds.
pub struct InstructionModel {
    pub program_id: Address,
    pub accounts: Seq<AccountRef>,
    pub data: Seq<u8>,
}

impl View for InstructionData {
    type V = InstructionModel;

    open spec fn view(&self) -> InstructionModel {
        InstructionModel { program_id: self.program_id, accounts: self.accounts@, data: self.data@ }
    }
}

/// The instruction that moves `amount` of the smallest unit of `mint` from
/// `source` to `destination`, signed for by `signer`: it names the source and
/// the destination as writable, the mint and the authority as read only, then
/// the signer; its data is the byte 12, the amount in eight bytes, and the
/// decimals.
pub open spec fn transfer_checked_of(
    program: Address,
    source: Address,
    mint: Address,
    destination: Address,
    authority: Address,
    signer: Address,
    amount: u64,
    decimals: u8,
) -> InstructionModel {
    InstructionModel {
        program_id: program,
        accounts: seq![
            AccountRef { address: source, is_signer: false, is_writable: true },
            AccountRef { address: mint, is_signer: false, is_writable: false },
            AccountRef { address: destination, is_signer: false, is_writable: true },
            AccountRef { address: authority, is_signer: false, is_writable: false },
            AccountRef { address: signer, is_signer: true, is_writable: false },
        ],
        data: seq![12u8] + u64_bytes(amount as int) + seq![decimals],
    }
}

/// Calls `transfer_checked` of `spl_token_2022::instruction` with one signer.
/// The contract claims what the source of that function shows: for either
/// token program it succeeds, lists the accounts and packs the data as
/// `transfer_checked_of` says. Any other program it refuses, so callers must
/// name one of the two.
#[verifier::external_body]
fn build_transfer_checked(
    program: &Address,
    source: &Address,
    mint: &Address,
    destination: &Address,
    authority: &Address,
    amount: u64,
    decimals: u8,
) -> (built: InstructionData)
    requires
        program@ == legacy_token_id() || program@ == token_2022_id(),
    ensures
        built@ == transfer_checked_of(
            *program,
            *source,
            *mint,
            *destination,
            *authority,
            *authority,
            amount,
            decimals,
        ),
{
    let key = |a: &Address| Pubkey::new_from_array(a.bytes);
    let (p, s, m, d, w) = (key(program), key(source), key(mint), key(destination), key(authority));
    let ix = spl_token_2022::instruction::transfer_checked(&p, &s, &m, &d, &w, &[&w], amount, decimals)
        .unwrap();
    InstructionData {
        program_id: Address { bytes: ix.program_id.to_bytes() },
        accounts: ix.accounts.iter().map(|a| AccountRef {
            address: Address { bytes: a.pubkey.to_bytes() },
            is_signer: a.is_signer,
            is_writable: a.is_writable,
        }).collect(),
        data: ix.data,
    }
}

/// A number written in decimal digits is read back as an amount: reading
/// undoes writing.
pub proof fn lemma_decimal_is_read_back(n: u64)
    ensures
        amount_of(decimal(n as nat)) == Ok::<u64, AmountParseError>(n),
{
    lemma_decimal_digits(n as nat);
    let digits = decimal(n as nat);
    assert(digits[0] != '+');
    assert(digits.subrange(0, digits.len() as int) =~= digits);
}

proof fn lemma_decimal_digits(n: nat)
    ensures
        decimal(n).len() > 0,
        all_digits(decimal(n)),
        digits_value(decimal(n)) == n,
    decreases n,
{
    if n >= 10 {
        lemma_decimal_digits(n / 10);
        let front = decimal(n / 10);
        let whole = decimal(n);
        assert(whole.drop_last() =~= front);
        assert(whole.last() == digit_char((n % 10) as int));
        assert forall|i: int| 0 <= i < whole.len() implies is_digit(#[trigger] whole[i]) by {
            if i < front.len() {
                assert(whole[i] == front[i]);
            }
        }
    } else {
        let whole = decimal(n);
        assert(whole.drop_last() =~= Seq::<char>::empty());
        assert(digits_value(whole.drop_last()) == 0);
    }
}

proof fn lemma_pow10_grows(low: nat, high: nat)
    requires
        low <= high,
    ensures
        1 <= pow10(low) <= pow10(high),
    decreases high,
{
    if low < high {
        lemma_pow10_grows(low, (high - 1) as nat);
    } else if low > 0 {
        lemma_pow10_grows((low - 1) as nat, (low - 1) as nat);
    }
}

proof fn lemma_product_grows(amount: int, low: int, high: int)
    requires
        0 <= amount,
        0 <= low <= high,
    ensures
        amount * low <= amount * high,
{
    assert(amount * low <= amount * high) by (nonlinear_arith)
        requires
            0 <= amount,
            0 <= low <= high,
    ;
}

impl TokenAccountInstructions {
    /// The entry under which a prompt offers this instruction.
    pub open spec fn select_name(self) -> Seq<char> {
        match self {
            TokenAccountInstructions::Create => "Create"@,
            TokenAccountInstructions::Transfer => "Transfer"@,
        }
    }

    /// The entries that a prompt offers, in the order of the variants.
    pub fn to_select_vec() -> (entries: Vec<&'static str>)
        ensures
            entries@.len() == 2,
            entries@[0]@ == TokenAccountInstructions::Create.select_name(),
            entries@[1]@ == TokenAccountInstructions::Transfer.select_name(),
    {
        vec!["Create", "Transfer"]
    }

    /// The instruction that a prompt's entry names.
    pub fn from_select_str(select_str: &str) -> (r: Result<TokenAccountInstructions, CliError>)
        ensures
            match account_instruction_named(select_str@) {
                Some(instruction) => r == Ok::<TokenAccountInstructions, CliError>(instruction),
                None => r matches Err(CliError::InvalidTokenAccountInstruction(text)) && text@
                    == select_str@,
            },
    {
        if same_text(select_str, "Create") {
            Ok(TokenAccountInstructions::Create)
        } else if same_text(select_str, "Transfer") {
            Ok(TokenAccountInstructions::Transfer)
        } else {
            Err(CliError::InvalidTokenAccountInstruction(String::from_str(select_str)))
        }
    }

    /// Reads an amount as the user typed it.
    pub fn parse_amount(text: &str) -> (r: Result<u64, CliError>)
        ensures
            r == match amount_of(text@) {
                Ok(amount) => Ok::<u64, CliError>(amount),
                Err(reason) => Err(CliError::InvalidAmount(reason)),
            },
    {
        let n = text.unicode_len();
        if n == 0 {
            return Err(CliError::InvalidAmount(AmountParseError::Empty));
        }
        let first: usize = if text.get_char(0) == '+' {
            1
        } else {
            0
        };
        let ghost digits = unsigned_part(text@);
        if n == first {
            return Err(CliError::InvalidAmount(AmountParseError::InvalidDigit));
        }
        let mut value: u64 = 0;
        let mut k: usize = first;
        assert(digits.subrange(0, 0) =~= Seq::<char>::empty());
        while k < n
            invariant
                first <= k <= n,
                first <= 1,
                0 < n == text@.len(),
                digits == unsigned_part(text@),
                digits.len() == n - first,
                forall|i: int| 0 <= i < digits.len() ==> digits[i] == text@[i + first],
                readable(digits, k - first),
                value == digits_value(digits.subrange(0, k - first)),
            decreases n - k,
        {
            let c = text.get_char(k);
            let ghost at = k - first;
            let ghost shorter = digits.subrange(0, at);
            let ghost longer = digits.subrange(0, at + 1);
            assert(digits[at] == c);
            if c < '0' || c > '9' {
                proof {
                    assert(!is_digit(digits[at]));
                    assert(digits.subrange(0, digits.len() as int) =~= digits);
                    assert(!all_digits(digits));
                }
                return Err(CliError::InvalidAmount(AmountParseError::InvalidDigit));
            }
            let digit: u64 = (c as u32 - '0' as u32) as u64;
            proof {
                assert(longer.drop_last() =~= shorter);
                assert(longer.last() == c);
                assert(digits_value(longer) == 10 * value + digit);
                assert forall|i: int| 0 <= i < longer.len() implies is_digit(
                    #[trigger] longer[i],
                ) by {
                    if i < shorter.len() {
                        assert(longer[i] == shorter[i]);
                    }
                }
            }
            if value > (u64::MAX - digit) / 10 {
                proof {
                    lemma_too_large(digits, at);
                }
                return Err(CliError::InvalidAmount(AmountParseError::PosOverflow));
            }
            value = value * 10 + digit;
            k += 1;
        }
        assert(digits.subrange(0, n - first) =~= digits);
        Ok(value)
    }

    /// A transfer must move tokens between two different accounts.
    pub fn check_distinct_accounts(source: &Address, destination: &Address) -> (r: Result<
        (),
        CliError,
    >)
        ensures
            r == if source@ == destination@ {
                Err::<(), CliError>(CliError::SameSourceAndDestination)
            } else {
                Ok::<(), CliError>(())
            },
    {
        proof {
            lemma_address_by_bytes(*source, *destination);
        }
        if *source == *destination {
            Err(CliError::SameSourceAndDestination)
        } else {
            Ok(())
        }
    }

    /// Builds the instruction for a transfer of `amount` whole tokens of a
    /// mint with `decimals` decimal places, which the wallet signs as the
    /// authority over `source`. The two accounts must differ, and the amount
    /// must fit in 64 bits once scaled.
    pub fn transfer_instruction(
        source: &Address,
        mint: &Address,
        destination: &Address,
        wallet: &Address,
        amount: u64,
        decimals: u8,
    ) -> (r: Result<InstructionData, CliError>)
        ensures
            source@ == destination@ ==> r == Err::<InstructionData, CliError>(
                CliError::SameSourceAndDestination,
            ),
            source@ != destination@ && scaled_amount(amount, decimals) is Err ==> r == Err::<
                InstructionData,
                CliError,
            >(CliError::AmountOverflow),
            source@ != destination@ && scaled_amount(amount, decimals) is Ok ==> {
                &&& r matches Ok(instruction)
                &&& instruction.program_id@ == TokenProgram::Token2022.spec_program_address()
                &&& instruction@ == transfer_checked_of(
                    instruction.program_id,
                    *source,
                    *mint,
                    *destination,
                    *wallet,
                    *wallet,
                    scaled_amount(amount, decimals)->Ok_0,
                    decimals,
                )
            },
    {
        match TokenAccountInstructions::check_distinct_accounts(source, destination) {
            Ok(()) => {},
            Err(error) => {
                return Err(error);
            },
        }
        let raw = match TokenAccountInstructions::scale_amount(amount, decimals) {
            Ok(raw) => raw,
            Err(error) => {
                return Err(error);
            },
        };
        let program = TokenProgram::Token2022.program_address();
        Ok(build_transfer_checked(&program, source, mint, destination, wallet, raw, decimals))
    }

    /// Turns an amount given in whole tokens into the smallest unit of a mint
    /// with `decimals` decimal places.
    pub fn scale_amount(amount: u64, decimals: u8) -> (r: Result<u64, CliError>)
        ensures
            r == scaled_amount(amount, decimals),
    {
        let mut value: u64 = amount;
        let mut done: u8 = 0;
        assert(pow10(0) == 1);
        assert(amount * pow10(0) == amount) by (nonlinear_arith)
            requires
                pow10(0) == 1,
        ;
        while done < decimals
            invariant
                done <= decimals,
                value == amount * pow10(done as nat),
            decreases decimals - done,
        {
            proof {
                assert(amount * pow10((done + 1) as nat) == 10 * (amount * pow10(done as nat)))
                    by (nonlinear_arith)
                    requires
                        pow10((done + 1) as nat) == 10 * pow10(done as nat),
                ;
            }
            if value > u64::MAX / 10 {
                proof {
                    lemma_pow10_grows((done + 1) as nat, decimals as nat);
                    lemma_product_grows(
                        amount as int,
                        pow10((done + 1) as nat) as int,
                        pow10(decimals as nat) as int,
                    );
                }
                return Err(CliError::AmountOverflow);
            }
            value = value * 10;
            done += 1;
        }
        Ok(value)
    }
}

/// Each token-account instruction is found again under the entry that a
/// prompt offers for it.
pub proof fn lemma_account_instruction_names(instruction: TokenAccountInstructions)
    ensures
        account_instruction_named(instruction.select_name()) == Some(instruction),
{
    reveal_strlit("Create");
    reveal_strlit("Transfer");
    assert("Create"@.len() == 6);
    assert("Transfer"@.len() == 8);
}

} // verus!
