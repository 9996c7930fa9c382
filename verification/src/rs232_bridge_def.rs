//! The bridge definition: what a projector is called, how its serial line is
//! set up, and which bytes each PJLink command is translated to.

use crate::dictionary::Dictionary;
use vstd::prelude::*;
use vstd::utf8::encode_utf8;

verus! {

/// Command specs by command body with class: four command letters and the
/// class digit.
pub type BridgeDefinitionCommandsMap = Dictionary<[u8; 5], BridgeDefinitionCommand>;

/// Input definitions by transmission parameter.
pub type BridgeDefinitionCommandDefinitionsMap = Dictionary<
    Vec<u8>,
    BridgeDefinitionCommandDefinition,
>;

pub struct BridgeDefinition {
    pub general: BridgeDefinitionGeneral,
    pub connection: BridgeDefinitionConnection,
    pub resolution: Option<BridgeDefinitionResolution>,
    pub behavior: Option<BridgeDefinitionBehavior>,
    pub commands: BridgeDefinitionCommandsMap,
}

#[derive(Debug, Clone, PartialEq, Eq)]
pub struct BridgeDefinitionGeneral {
    pub manufacturer_name: String,
    pub product_name: String,
    pub software_version: String,
    pub class_type: u8,
}

#[derive(Debug, Clone, PartialEq, Eq)]
pub struct BridgeDefinitionConnection {
    pub baud_rate: u32,
    pub data_bits: Option<u8>,
    pub parity: Option<char>,
    pub stop_bits: Option<u8>,
    pub hardware_flow_control: Option<bool>,
    pub software_flow_control: Option<bool>,
}

#[derive(Debug, Clone, PartialEq, Eq)]
pub struct BridgeDefinitionResolution {
    pub current: Option<[u32; 2]>,
    pub recommended: Option<[u32; 2]>,
}

#[derive(Debug, Clone, PartialEq, Eq)]
pub struct BridgeDefinitionBehavior {
    pub send_on_start: Option<Vec<u8>>,
    pub wait_for_response: Option<u32>,
}

#[derive(Debug)]
pub struct BridgeDefinitionCommand {
    pub inputs: BridgeDefinitionCommandDefinitionsMap,
    pub wait_for_response: Option<u32>,
}

#[derive(Debug, Clone, PartialEq, Eq)]
pub struct BridgeDefinitionCommandDefinition {
    pub send: Vec<u8>,
    pub send_times: Option<u32>,
    pub send_timeout: Option<u32>,
    pub wait_for_response: Option<u32>,
    pub outputs: Vec<BridgeDefinitionCommandDefinitionOutput>,
}

/// The PJLink response token that a projector reply is mapped to. The two
/// variants are told apart in the definition only; both name a token.
#[derive(Debug, Clone, PartialEq, Eq)]
pub enum BridgeDefinitionCommandDefinitionOutputResponse {
    Default(String),
    Value(String),
}

/// What a projector reply is held against.
#[derive(Debug, Clone, PartialEq, Eq)]
pub enum BridgeDefinitionCommandDefinitionOutputProjectorResponse {
    /// The reply has to equal these bytes.
    Value(Vec<u8>),
    /// A decoding rule with its attributes. No rule is carried out yet.
    RuleMap(
        BridgeDefinitionCommandDefinitionOutputProjectorResponseRuleMap,
        Vec<BridgeDefinitionProjectorResponseRuleMapLsbMsbAttribute>,
    ),
}

#[derive(Debug, Clone, Copy, PartialEq, Eq)]
pub enum BridgeDefinitionCommandDefinitionOutputProjectorResponseRuleMap {
    LsbMsb,
}

#[derive(Debug, Clone, PartialEq, Eq)]
pub struct BridgeDefinitionProjectorResponseRuleMapLsbMsbAttribute {
    pub rule_type: String,
    pub value: Vec<u8>,
}

#[derive(Debug, Clone, PartialEq, Eq)]
pub struct BridgeDefinitionCommandDefinitionOutput {
    pub on_received: BridgeDefinitionCommandDefinitionOutputProjectorResponse,
    pub response: BridgeDefinitionCommandDefinitionOutputResponse,
}

/// Why a definition was not accepted, in words for the operator.
#[derive(Debug, Clone, PartialEq, Eq)]
pub struct Error {
    pub message: String,
}

impl BridgeDefinitionCommandDefinitionOutputResponse {
    /// The response token, whichever variant carries it.
    pub open spec fn spec_token(&self) -> Seq<char> {
        match self {
            BridgeDefinitionCommandDefinitionOutputResponse::Default(token) => token@,
            BridgeDefinitionCommandDefinitionOutputResponse::Value(token) => token@,
        }
    }

    /// The response token, whichever variant carries it.
    pub fn token(&self) -> (token: &String)
        ensures
            token@ == self.spec_token(),
    {
        match self {
            BridgeDefinitionCommandDefinitionOutputResponse::Default(token) => token,
            BridgeDefinitionCommandDefinitionOutputResponse::Value(token) => token,
        }
    }
}

/// Five zero bytes: the command body that stands for "none".
pub open spec fn blank_command_body() -> Seq<u8> {
    seq![0u8, 0u8, 0u8, 0u8, 0u8]
}

/// The five bytes of `input` as a command body; the blank body where `input`
/// is not five bytes long.
pub fn cast_command_bytes(input: &[u8]) -> (body: [u8; 5])
    ensures
        input@.len() == 5 ==> body@ == input@,
        input@.len() != 5 ==> body@ == blank_command_body(),
{
    if input.len() == 5 {
        let body: [u8; 5] = [input[0], input[1], input[2], input[3], input[4]];
        assert(body@ =~= input@);
        body
    } else {
        let body: [u8; 5] = [0u8, 0u8, 0u8, 0u8, 0u8];
        assert(body@ =~= blank_command_body());
        body
    }
}

/// The dictionary that a list of named entries stands for: each entry filed
/// under the bytes of its name, a later entry replacing an earlier one of the
/// same name.
pub open spec fn filed_by_name<V>(entries: Seq<(String, V)>) -> Map<Seq<u8>, V>
    decreases entries.len(),
{
    if entries.len() == 0 {
        Map::empty()
    } else {
        filed_by_name(entries.drop_last()).insert(
            encode_utf8(entries.last().0@),
            entries.last().1,
        )
    }
}

/// Whether the entry at `index` has a name that can be a command body.
pub open spec fn names_command_body<V>(entries: Seq<(String, V)>, index: int) -> bool {
    encode_utf8(entries[index].0@).len() == 5
}

/// What the operator is told of a command key that is not five bytes long.
pub open spec fn command_key_complaint(key: Seq<char>) -> Seq<char> {
    "commands."@ + key + " must have 5 characters"@
}

/// Builds the command dictionary from the entries of the `commands` table, in
/// the order given. Every key must be five bytes long; the first one that is
/// not is reported.
pub fn commands_from_entries(entries: Vec<(String, BridgeDefinitionCommand)>) -> (result: Result<
    BridgeDefinitionCommandsMap,
    Error,
>)
    ensures
        match result {
            Ok(commands) => {
                &&& forall|i: int| 0 <= i < entries@.len() ==> names_command_body(entries@, i)
                &&& commands@ == filed_by_name(entries@)
            },
            Err(error) => exists|bad: int|
                {
                    &&& 0 <= bad < entries@.len()
                    &&& !names_command_body(entries@, bad)
                    &&& forall|i: int| 0 <= i < bad ==> names_command_body(entries@, i)
                    &&& error.message@ == command_key_complaint(entries@[bad].0@)
                },
        },
{
    let mut commands: BridgeDefinitionCommandsMap = Dictionary::with_capacity(entries.len());
    let ghost all = entries@;
    assert(all.take(0) =~= Seq::<(String, BridgeDefinitionCommand)>::empty());
    for entry in it: entries.into_iter()
        invariant
            it.seq() == all,
            forall|i: int| 0 <= i < it.index() ==> names_command_body(all, i),
            commands@ == filed_by_name(all.take(it.index() as int)),
    {
        let ghost index = it.index() as int;
        let (key, value) = entry;
        let key_bytes = key.as_str().as_bytes();
        if key_bytes.len() != 5 {
            let message = String::from_str("commands.").concat(key.as_str()).concat(
                " must have 5 characters",
            );
            assert(!names_command_body(all, index));
            return Err(Error { message });
        }
        let body = cast_command_bytes(key_bytes);
        commands.insert(body, value);
        proof {
            assert(all.take(index + 1).drop_last() =~= all.take(index));
            assert(all.take(index + 1).last() == all[index]);
        }
    }
    assert(all.take(all.len() as int) =~= all);
    Ok(commands)
}

/// Builds the input dictionary of one command from the entries of its
/// `inputs` table, in the order given. A key may be of any length.
pub fn command_definitions_from_entries(
    entries: Vec<(String, BridgeDefinitionCommandDefinition)>,
) -> (inputs: BridgeDefinitionCommandDefinitionsMap)
    ensures
        inputs@ == filed_by_name(entries@),
{
    let mut inputs: BridgeDefinitionCommandDefinitionsMap = Dictionary::with_capacity(
        entries.len(),
    );
    let ghost all = entries@;
    assert(all.take(0) =~= Seq::<(String, BridgeDefinitionCommandDefinition)>::empty());
    for entry in it: entries.into_iter()
        invariant
            it.seq() == all,
            inputs@ == filed_by_name(all.take(it.index() as int)),
    {
        let ghost index = it.index() as int;
        let (key, value) = entry;
        let key_bytes: Vec<u8> = key.as_str().as_bytes_vec();
        inputs.insert(key_bytes, value);
        proof {
            assert(all.take(index + 1).drop_last() =~= all.take(index));
            assert(all.take(index + 1).last() == all[index]);
        }
    }
    assert(all.take(all.len() as int) =~= all);
    inputs
}

} // verus!
