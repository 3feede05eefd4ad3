//! Typed request/response material for the inter-actor call client:
//! the uniform error value every failed call is translated into, and
//! the request shapes sent to collaborator actors (credential issuing,
//! actor creation, code installation, start/stop).
//!
//! The call primitive itself is owned by the host runtime; this module
//! states exactly what is sent and how a host-level failure is folded
//! into one error shape.

use vstd::prelude::*;
use vstd::string::StringExecFns;
use crate::actor::ActorId;
use crate::state::BoardState;

verus! {

/// The character of one decimal digit.
pub open spec fn dec_digit(d: int) -> char {
    if d == 0 {
        '0'
    } else if d == 1 {
        '1'
    } else if d == 2 {
        '2'
    } else if d == 3 {
        '3'
    } else if d == 4 {
        '4'
    } else if d == 5 {
        '5'
    } else if d == 6 {
        '6'
    } else if d == 7 {
        '7'
    } else if d == 8 {
        '8'
    } else {
        '9'
    }
}

/// The decimal numeral of a non-negative number, most significant
/// digit first and without leading zeros.
pub open spec fn dec_of(n: int) -> Seq<char>
    decreases n,
{
    if n < 10 {
        seq![dec_digit(n)]
    } else {
        dec_of(n / 10) + seq![dec_digit(n % 10)]
    }
}

/// The one-character text of a decimal digit.
fn digit_str(d: u8) -> (r: &'static str)
    requires
        d < 10,
    ensures
        r@ == seq![dec_digit(d as int)],
{
    proof {
        reveal_strlit("0");
        reveal_strlit("1");
        reveal_strlit("2");
        reveal_strlit("3");
        reveal_strlit("4");
        reveal_strlit("5");
        reveal_strlit("6");
        reveal_strlit("7");
        reveal_strlit("8");
        reveal_strlit("9");
    }
    let r = match d {
        0 => "0",
        1 => "1",
        2 => "2",
        3 => "3",
        4 => "4",
        5 => "5",
        6 => "6",
        7 => "7",
        8 => "8",
        _ => "9",
    };
    proof {
        assert(r@ =~= seq![dec_digit(d as int)]);
    }
    r
}

/// Appends the decimal numeral of `n` to `out`.
fn push_decimal(out: &mut String, n: u8)
    ensures
        final(out)@ == old(out)@ + dec_of(n as int),
{
    if n >= 100 {
        out.append(digit_str(n / 100));
    }
    if n >= 10 {
        out.append(digit_str((n / 10) % 10));
    }
    out.append(digit_str(n % 10));
    proof {
        if n >= 100 {
            assert((n as int) / 10 / 10 == (n as int) / 100);
            assert((n as int) / 100 < 10);
            assert(dec_of((n as int) / 10) == dec_of((n as int) / 100) + seq![
                dec_digit(((n as int) / 10) % 10),
            ]);
            assert(dec_of((n as int) / 100) == seq![dec_digit((n as int) / 100)]);
        } else if n >= 10 {
            assert((n as int) / 10 < 10);
            assert(dec_of((n as int) / 10) == seq![dec_digit((n as int) / 10)]);
        }
        assert(final(out)@ =~= old(out)@ + dec_of(n as int));
    }
}

/// Uniform error for a failed inter-actor call: the host's reject code
/// and its message, wrapped unmodified.
#[derive(Debug, PartialEq, Eq)]
pub struct CallError {
    pub code: u8,
    pub message: String,
}

impl CallError {
    /// Folds a host-level failure signal into the uniform error shape;
    /// nothing is hidden or replaced.
    pub fn from_reject(code: u8, message: String) -> (r: CallError)
        ensures
            r.code == code,
            r.message == message,
    {
        CallError { code, message }
    }
}

/// The uniform failure text relayed to external callers: the reject
/// code's decimal numeral and the host's message, after the fixed
/// preamble.
pub open spec fn call_error_text(code: int, message: Seq<char>) -> Seq<char> {
    "An error happened during the call: "@ + dec_of(code) + ": "@ + message
}

impl CallError {
    /// Renders the uniform error as the text an external caller sees;
    /// the code and message appear verbatim, nothing is hidden.
    pub fn describe(&self) -> (r: String)
        ensures
            r@ == call_error_text(self.code as int, self.message@),
    {
        let mut out: String = "An error happened during the call: ".to_owned();
        push_decimal(&mut out, self.code);
        out.append(": ");
        out.append(self.message.as_str());
        proof {
            assert(out@ =~= call_error_text(self.code as int, self.message@));
        }
        out
    }
}

impl Clone for CallError {
    fn clone(&self) -> (r: Self)
        ensures
            r == *self,
    {
        CallError { code: self.code, message: self.message.clone() }
    }
}

/// Value attached to a credential property.
#[derive(Clone, Copy, Debug, PartialEq, Eq, Structural)]
pub enum Value {
    Empty,
}

/// One named, optionally immutable property of a credential request.
#[derive(Debug, PartialEq, Eq)]
pub struct Property {
    pub name: String,
    pub value: Value,
    pub immutable: bool,
}

/// Mathematical value of a [`Property`].
#[verifier::ext_equal]
pub ghost struct PropertyView {
    pub name: Seq<char>,
    pub value: Value,
    pub immutable: bool,
}

impl View for Property {
    type V = PropertyView;

    open spec fn view(&self) -> PropertyView {
        PropertyView { name: self.name@, value: self.value, immutable: self.immutable }
    }
}

/// Payload carried by a credential request.
#[derive(Debug, PartialEq, Eq)]
pub enum NFTPayload {
    Payload(Vec<u8>),
}

impl View for NFTPayload {
    type V = Seq<u8>;

    open spec fn view(&self) -> Seq<u8> {
        match *self {
            NFTPayload::Payload(bytes) => bytes@,
        }
    }
}

/// A credential/asset request handed to the issuing collaborator's
/// `mint` entry point; the reply is the opaque credential id.
#[derive(Debug, PartialEq, Eq)]
pub struct NftEgg {
    pub payload: NFTPayload,
    pub content_type: String,
    pub owner: ActorId,
    pub properties: Vec<Property>,
    pub is_private: bool,
}

/// Mathematical value of an [`NftEgg`].
#[verifier::ext_equal]
pub ghost struct NftEggView {
    pub payload: Seq<u8>,
    pub content_type: Seq<char>,
    pub owner: ActorId,
    pub properties: Seq<PropertyView>,
    pub is_private: bool,
}

impl View for NftEgg {
    type V = NftEggView;

    open spec fn view(&self) -> NftEggView {
        NftEggView {
            payload: self.payload@,
            content_type: self.content_type@,
            owner: self.owner,
            properties: self.properties@.map(|i: int, p: Property| p@),
            is_private: self.is_private,
        }
    }
}

/// The request that asks the issuer to mint a board visa for `owner`:
/// a one-byte payload, text content, and a single immutable property
/// naming the visa, kept private.
pub open spec fn visa_egg_view(owner: ActorId) -> NftEggView {
    NftEggView {
        payload: seq![0u8],
        content_type: "text"@,
        owner,
        properties: seq![
            PropertyView { name: "board visa"@, value: Value::Empty, immutable: true },
        ],
        is_private: true,
    }
}

/// The request that asks the issuer to mint a citizenship credential
/// for `citizen`: a one-byte payload, empty content type, and a single
/// mutable property naming the citizenship, kept private.
pub open spec fn citizen_egg_view(citizen: ActorId) -> NftEggView {
    NftEggView {
        payload: seq![0u8],
        content_type: Seq::empty(),
        owner: citizen,
        properties: seq![
            PropertyView { name: "citizenship"@, value: Value::Empty, immutable: false },
        ],
        is_private: true,
    }
}

/// Builds the board-visa request for `owner`.
pub fn visa_nft_egg(owner: ActorId) -> (r: NftEgg)
    ensures
        r@ == visa_egg_view(owner),
{
    let mut payload: Vec<u8> = Vec::new();
    payload.push(0u8);
    let mut properties: Vec<Property> = Vec::new();
    properties.push(
        Property { name: "board visa".to_owned(), value: Value::Empty, immutable: true },
    );
    let r = NftEgg {
        payload: NFTPayload::Payload(payload),
        content_type: "text".to_owned(),
        owner,
        properties,
        is_private: true,
    };
    proof {
        assert(r@.payload =~= visa_egg_view(owner).payload);
        assert(r@.properties =~= visa_egg_view(owner).properties);
        assert(r@ =~= visa_egg_view(owner));
    }
    r
}

/// Builds the citizenship request for `citizen`.
pub fn citizen_nft_egg(citizen: ActorId) -> (r: NftEgg)
    ensures
        r@ == citizen_egg_view(citizen),
{
    let mut payload: Vec<u8> = Vec::new();
    payload.push(0u8);
    let mut properties: Vec<Property> = Vec::new();
    properties.push(
        Property { name: "citizenship".to_owned(), value: Value::Empty, immutable: false },
    );
    let r = NftEgg {
        payload: NFTPayload::Payload(payload),
        content_type: String::new(),
        owner: citizen,
        properties,
        is_private: true,
    };
    proof {
        assert(r@.payload =~= citizen_egg_view(citizen).payload);
        assert(r@.properties =~= citizen_egg_view(citizen).properties);
        assert(r@ =~= citizen_egg_view(citizen));
    }
    r
}

impl BoardState {
    /// Prepares the board's own visa request: the collaborator to call
    /// is the registrar fixed at initialization, and the credential is
    /// minted for this actor's own identity. Local state is never
    /// mutated by the visa flow.
    pub fn get_board_visa(&self, self_id: ActorId) -> (r: (ActorId, NftEgg))
        ensures
            r.0 == self@.registrar,
            r.1@ == visa_egg_view(self_id),
    {
        (self.registrar, visa_nft_egg(self_id))
    }
}

/// Settings for a freshly created actor.
#[derive(Clone, Copy, Debug, PartialEq, Eq, Structural)]
pub struct CanisterSettings {
    pub controller: Option<ActorId>,
    pub compute_allocation: Option<u64>,
    pub memory_allocation: Option<u64>,
    pub freezing_threshold: Option<u64>,
}

/// Arguments of the creation step: the settings of the new actor and
/// the resource amount attached to fund it.
#[derive(Clone, Copy, Debug, PartialEq, Eq, Structural)]
pub struct CreateCanisterArgs {
    pub cycles: u64,
    pub settings: CanisterSettings,
}

/// The wire shape of the creation request.
#[derive(Clone, Copy, Debug, PartialEq, Eq, Structural)]
pub struct CreateCanisterIn {
    pub settings: Option<CanisterSettings>,
}

/// Builds the creation request and the payment to attach: the settings
/// are always sent, and the attached amount is exactly the budget from
/// the arguments.
pub fn create_canister_in(args: CreateCanisterArgs) -> (r: (CreateCanisterIn, u64))
    ensures
        r.0.settings == Some(args.settings),
        r.1 == args.cycles,
{
    (CreateCanisterIn { settings: Some(args.settings) }, args.cycles)
}

/// How code is placed on an actor.
#[derive(Clone, Copy, Debug, PartialEq, Eq, Structural)]
pub enum InstallMode {
    Install,
    Reinstall,
    Upgrade,
}

/// The wire shape of the installation request.
#[derive(Debug)]
pub struct CanisterInstall {
    pub mode: InstallMode,
    pub canister_id: ActorId,
    pub wasm_module: Vec<u8>,
    pub arg: Vec<u8>,
}

/// Builds the installation request for a fresh actor: a plain install
/// (never reinstall or upgrade) of the given image with the given init
/// arguments.
pub fn install_config(canister_id: ActorId, wasm_module: Vec<u8>, args: Vec<u8>) -> (r:
    CanisterInstall)
    ensures
        r.mode is Install,
        r.canister_id == canister_id,
        r.wasm_module@ == wasm_module@,
        r.arg@ == args@,
{
    CanisterInstall { mode: InstallMode::Install, canister_id, wasm_module, arg: args }
}

/// Argument of the start and stop steps: the actor to start or stop.
#[derive(Clone, Copy, Debug, PartialEq, Eq, Structural)]
pub struct StartStopArgs {
    pub canister_id: ActorId,
}

} // verus!
