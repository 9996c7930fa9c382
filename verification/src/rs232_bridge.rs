//! The translation engine: the options a bridge runs with, and the handler
//! that answers PJLink commands, from the options alone where it can and by
//! an exchange with the projector where it must.

use crate::bytes::{bytes_equal, decimal_digits, push_decimal};
use crate::connector_link::{
    exchange_request, ConnectorLink, MessageRequestView, PjLinkRS232MessageRequest,
    PjLinkRS232MessageResponse,
};
use crate::rs232_bridge_def::{
    BridgeDefinition, BridgeDefinitionBehavior, BridgeDefinitionCommand,
    BridgeDefinitionCommandDefinition, BridgeDefinitionCommandDefinitionOutput,
    BridgeDefinitionCommandDefinitionOutputProjectorResponse,
    BridgeDefinitionCommandDefinitionOutputResponse, BridgeDefinitionCommandsMap,
    BridgeDefinitionResolution,
};
use std::sync::mpsc::{Receiver, RecvError, SyncSender};
use vstd::prelude::*;
use vstd::utf8::encode_utf8;

verus! {

/// What a projector last reported of itself. Nothing is kept between
/// requests yet: the projector is asked each time.
#[derive(Clone)]
pub struct PjLinkRS232ProjectorState {
    power_on: u8,
    error_fan_status: u8,
    error_lamp_status: u8,
    error_temperature_status: u8,
    error_cover_open_status: u8,
    error_filter_status: u8,
    error_other_status: u8,
    lamp_hours: Vec<u8>,
    filter_hours: Vec<u8>,
    mute_status: [u8; 2],
    input_status: [u8; 2],
    available_inputs: Vec<u8>,
    freeze_status: u8,
}

/// All that a running bridge is configured with: the answers to the identity
/// queries, the command dictionary and the serial line's settings.
pub struct PjLinkRS232ProjectorOptions {
    pub password: Option<String>,
    pub class_type: u8,
    pub manufacturer_name: Vec<u8>,
    pub product_name: Vec<u8>,
    pub projector_name: Vec<u8>,
    pub serial_number: Vec<u8>,
    pub software_version: Vec<u8>,
    pub screen_resolution: Vec<u8>,
    pub recommended_screen_resolution: Vec<u8>,
    pub commands: BridgeDefinitionCommandsMap,
    pub behavior: BridgeDefinitionBehavior,
    pub serial_port: String,
    pub baud_rate: u32,
    pub data_bits: u8,
    pub parity: char,
    pub stop_bits: u8,
    pub hardware_flow_control: bool,
    pub software_flow_control: bool,
}

/// The wait, in milliseconds, that a definition without a `behavior` table
/// gives every command.
pub const DEFAULT_WAIT_FOR_RESPONSE: u32 = 50;

/// A resolution as it is advertised: width, the letter `x`, height, both in
/// decimal.
pub open spec fn resolution_text(size: [u32; 2]) -> Seq<u8> {
    decimal_digits(size@[0] as nat) + seq![120u8] + decimal_digits(size@[1] as nat)
}

/// The advertised form of a resolution that may be unset: nothing, then.
pub open spec fn optional_resolution_text(size: Option<[u32; 2]>) -> Seq<u8> {
    match size {
        Some(size) => resolution_text(size),
        None => Seq::empty(),
    }
}

/// The current resolution that a definition advertises, if any.
pub open spec fn current_resolution(resolution: Option<BridgeDefinitionResolution>) -> Option<
    [u32; 2],
> {
    match resolution {
        Some(resolution) => resolution.current,
        None => None,
    }
}

/// The recommended resolution that a definition advertises, if any.
pub open spec fn recommended_resolution(resolution: Option<BridgeDefinitionResolution>) -> Option<
    [u32; 2],
> {
    match resolution {
        Some(resolution) => resolution.recommended,
        None => None,
    }
}

/// The behavior a definition asks for; without a `behavior` table, the
/// default wait and nothing sent on start.
pub open spec fn behavior_or_default(behavior: Option<BridgeDefinitionBehavior>)
    -> BridgeDefinitionBehavior {
    match behavior {
        Some(behavior) => behavior,
        None => BridgeDefinitionBehavior {
            send_on_start: None,
            wait_for_response: Some(DEFAULT_WAIT_FOR_RESPONSE),
        },
    }
}

/// Renders a resolution as it is advertised.
pub fn render_resolution(size: &[u32; 2]) -> (text: Vec<u8>)
    ensures
        text@ == resolution_text(*size),
{
    let mut text: Vec<u8> = Vec::new();
    push_decimal(&mut text, size[0]);
    text.push(120u8);
    push_decimal(&mut text, size[1]);
    assert(text@ =~= resolution_text(*size));
    text
}

impl PjLinkRS232ProjectorOptions {
    /// The options that a definition gives rise to. What only the command
    /// line knows (the projector's name, its serial number, the password and
    /// the serial port) is left empty.
    ///
    /// The class is kept as the ASCII digit that answers the class query, so
    /// it has to leave room for the digit zero's code to be added.
    pub fn from_def(def: BridgeDefinition) -> (options: PjLinkRS232ProjectorOptions)
        requires
            def.general.class_type <= 207,
        ensures
            options.password is None,
            options.class_type == def.general.class_type + 48,
            options.manufacturer_name@ == encode_utf8(def.general.manufacturer_name@),
            options.product_name@ == encode_utf8(def.general.product_name@),
            options.software_version@ == encode_utf8(def.general.software_version@),
            options.projector_name@ == Seq::<u8>::empty(),
            options.serial_number@ == Seq::<u8>::empty(),
            options.screen_resolution@ == optional_resolution_text(
                current_resolution(def.resolution),
            ),
            options.recommended_screen_resolution@ == optional_resolution_text(
                recommended_resolution(def.resolution),
            ),
            options.commands == def.commands,
            options.behavior == behavior_or_default(def.behavior),
            options.serial_port@ == Seq::<char>::empty(),
            options.baud_rate == def.connection.baud_rate,
            options.data_bits == def.connection.data_bits.unwrap_or(8),
            options.parity == def.connection.parity.unwrap_or('N'),
            options.stop_bits == def.connection.stop_bits.unwrap_or(1),
            options.hardware_flow_control == def.connection.hardware_flow_control.unwrap_or(false),
            options.software_flow_control == def.connection.software_flow_control.unwrap_or(false),
    {
        let manufacturer_name = def.general.manufacturer_name.as_str().as_bytes_vec();
        let product_name = def.general.product_name.as_str().as_bytes_vec();
        let software_version = def.general.software_version.as_str().as_bytes_vec();

        let mut resolution_current: Vec<u8> = Vec::new();
        let mut resolution_recommended: Vec<u8> = Vec::new();

        if let Some(def_resolution) = &def.resolution {
            if let Some(def_resolution_current) = &def_resolution.current {
                resolution_current = render_resolution(def_resolution_current);
            }
            if let Some(def_resolution_recommended) = &def_resolution.recommended {
                resolution_recommended = render_resolution(def_resolution_recommended);
            }
        }
        let behavior = match def.behavior {
            Some(behavior) => behavior,
            None => BridgeDefinitionBehavior {
                send_on_start: None,
                wait_for_response: Some(DEFAULT_WAIT_FOR_RESPONSE),
            },
        };

        PjLinkRS232ProjectorOptions {
            class_type: def.general.class_type + 48,
            manufacturer_name,
            product_name,
            software_version,
            recommended_screen_resolution: resolution_recommended,
            screen_resolution: resolution_current,
            password: None,
            projector_name: Vec::new(),
            serial_number: Vec::new(),
            commands: def.commands,
            behavior,
            serial_port: String::new(),
            baud_rate: def.connection.baud_rate,
            data_bits: def.connection.data_bits.unwrap_or(8),
            parity: def.connection.parity.unwrap_or('N'),
            stop_bits: def.connection.stop_bits.unwrap_or(1),
            hardware_flow_control: def.connection.hardware_flow_control.unwrap_or(false),
            software_flow_control: def.connection.software_flow_control.unwrap_or(false),
        }
    }
}

/// The PJLink commands as far as the handler tells them apart: the eight
/// queries that are answered from the options, and everything else.
#[derive(Debug, Clone, Copy, PartialEq, Eq, Structural)]
pub enum BridgeCommand {
    /// Class information query.
    Class1,
    /// Serial number query.
    SerialNumber2,
    /// Software version query.
    SoftwareVersion2,
    /// Projector name query.
    Name1,
    /// Manufacturer name query.
    InfoManufacturer1,
    /// Product name query.
    InfoProductName1,
    /// Input resolution query.
    InputResolution2,
    /// Recommended resolution query.
    RecommendResolution2,
    /// Any command that the definition has to translate.
    Other,
}

/// A command as it came off the wire: the command body with its class digit,
/// and the bytes that follow as its parameter.
#[derive(Debug, Clone, PartialEq, Eq)]
pub struct BridgeRawPayload {
    pub command_body_with_class: [u8; 5],
    pub transmission_parameter: Vec<u8>,
}

/// What the handler answers.
#[derive(Debug, Clone, PartialEq, Eq)]
pub enum BridgeResponse {
    /// One byte of data.
    Single(u8),
    /// A run of data bytes; it may be empty.
    Multiple(Vec<u8>),
    /// The response token that the definition maps the projector's reply to.
    Mapped(String),
    /// The parameter is not known, or the projector's reply is not.
    OutOfParameter,
    /// The command is not known.
    Undefined,
    /// The projector cannot be reached now.
    UnavailableTime,
}

/// A response as contracts speak of it.
pub enum BridgeResponseView {
    Single(u8),
    Multiple(Seq<u8>),
    Mapped(Seq<char>),
    OutOfParameter,
    Undefined,
    UnavailableTime,
}

impl View for BridgeResponse {
    type V = BridgeResponseView;

    open spec fn view(&self) -> BridgeResponseView {
        match self {
            BridgeResponse::Single(byte) => BridgeResponseView::Single(*byte),
            BridgeResponse::Multiple(bytes) => BridgeResponseView::Multiple(bytes@),
            BridgeResponse::Mapped(token) => BridgeResponseView::Mapped(token@),
            BridgeResponse::OutOfParameter => BridgeResponseView::OutOfParameter,
            BridgeResponse::Undefined => BridgeResponseView::Undefined,
            BridgeResponse::UnavailableTime => BridgeResponseView::UnavailableTime,
        }
    }
}

/// The wait that an exchange is given: the input's own, else the command's,
/// else the definition's, else none.
pub open spec fn spec_timeout(
    behavior: BridgeDefinitionBehavior,
    input: BridgeDefinitionCommandDefinition,
    command: BridgeDefinitionCommand,
) -> u32 {
    if let Some(wait) = input.wait_for_response {
        wait
    } else if let Some(wait) = command.wait_for_response {
        wait
    } else if let Some(wait) = behavior.wait_for_response {
        wait
    } else {
        0
    }
}

/// How often an input's bytes are sent: as often as it says, and once where
/// it says nothing or less than twice.
pub open spec fn spec_send_times(input: BridgeDefinitionCommandDefinition) -> nat {
    match input.send_times {
        Some(times) => if times > 1 {
            times as nat
        } else {
            1
        },
        None => 1,
    }
}

/// Whether `rule` decides what a `reply` is answered with: an exact-match
/// rule does when the reply equals its bytes; a rule map always does, since
/// no rule map can be carried out and the exchange ends there.
pub open spec fn rule_settles(
    rule: BridgeDefinitionCommandDefinitionOutput,
    reply: Seq<u8>,
) -> bool {
    match rule.on_received {
        BridgeDefinitionCommandDefinitionOutputProjectorResponse::Value(expected) => {
            expected@ == reply
        },
        BridgeDefinitionCommandDefinitionOutputProjectorResponse::RuleMap(_, _) => true,
    }
}

/// What a rule that settles answers: its token where it matched, and
/// out-of-parameter where it is a rule map.
pub open spec fn rule_verdict(
    rule: BridgeDefinitionCommandDefinitionOutput,
) -> BridgeResponseView {
    match rule.on_received {
        BridgeDefinitionCommandDefinitionOutputProjectorResponse::Value(_) => {
            BridgeResponseView::Mapped(rule.response.spec_token())
        },
        BridgeDefinitionCommandDefinitionOutputProjectorResponse::RuleMap(_, _) => {
            BridgeResponseView::OutOfParameter
        },
    }
}

/// Whether the rule at `index` is the first, in declared order, that settles.
pub open spec fn first_settling_rule(
    outputs: Seq<BridgeDefinitionCommandDefinitionOutput>,
    index: int,
    reply: Seq<u8>,
) -> bool {
    &&& 0 <= index < outputs.len()
    &&& rule_settles(outputs[index], reply)
    &&& forall|earlier: int|
        0 <= earlier < index ==> !rule_settles(#[trigger] outputs[earlier], reply)
}

/// What a projector's `reply` is answered with under the rules `outputs`: the
/// verdict of the first rule that settles, and out-of-parameter where none does.
pub open spec fn spec_connector_response(
    outputs: Seq<BridgeDefinitionCommandDefinitionOutput>,
    reply: Seq<u8>,
) -> BridgeResponseView {
    if exists|index: int| first_settling_rule(outputs, index, reply) {
        rule_verdict(outputs[choose|index: int| first_settling_rule(outputs, index, reply)])
    } else {
        BridgeResponseView::OutOfParameter
    }
}

/// What the outcome of an exchange is answered with: what the rules make of
/// the worker's reply, and unavailable-time where no reply came.
pub open spec fn spec_exchange_response(
    outputs: Seq<BridgeDefinitionCommandDefinitionOutput>,
    outcome: Result<PjLinkRS232MessageResponse, RecvError>,
) -> BridgeResponseView {
    match outcome {
        Ok(response) => spec_connector_response(outputs, response.response@),
        Err(_) => BridgeResponseView::UnavailableTime,
    }
}

/// What one of the eight identity queries is answered with; `None` for any
/// other command.
pub open spec fn spec_static_response(
    options: PjLinkRS232ProjectorOptions,
    command: BridgeCommand,
) -> Option<BridgeResponseView> {
    match command {
        BridgeCommand::Class1 => Some(BridgeResponseView::Single(options.class_type)),
        BridgeCommand::SerialNumber2 => Some(BridgeResponseView::Multiple(options.serial_number@)),
        BridgeCommand::SoftwareVersion2 => Some(
            BridgeResponseView::Multiple(options.software_version@),
        ),
        BridgeCommand::Name1 => Some(BridgeResponseView::Multiple(options.projector_name@)),
        BridgeCommand::InfoManufacturer1 => Some(
            BridgeResponseView::Multiple(options.manufacturer_name@),
        ),
        BridgeCommand::InfoProductName1 => Some(BridgeResponseView::Multiple(options.product_name@)),
        BridgeCommand::InputResolution2 => Some(
            BridgeResponseView::Multiple(options.screen_resolution@),
        ),
        BridgeCommand::RecommendResolution2 => Some(
            BridgeResponseView::Multiple(options.recommended_screen_resolution@),
        ),
        BridgeCommand::Other => None,
    }
}

/// `count` times the same request.
pub open spec fn repeated_request(request: MessageRequestView, count: nat) -> Seq<
    MessageRequestView,
> {
    Seq::new(count, |i: int| request)
}

/// The input that the definition has for a command as it came off the wire:
/// the command spec filed under its body, and in it the input definition
/// filed under its parameter. `None` where either is missing.
pub open spec fn spec_input(options: PjLinkRS232ProjectorOptions, payload: BridgeRawPayload)
    -> Option<(BridgeDefinitionCommand, BridgeDefinitionCommandDefinition)> {
    let commands = options.commands@;
    let body = payload.command_body_with_class@;
    let parameter = payload.transmission_parameter@;
    if commands.contains_key(body) && commands[body].inputs@.contains_key(parameter) {
        Some((commands[body], commands[body].inputs@[parameter]))
    } else {
        None
    }
}

/// What a command that the definition translates asks of the serial worker:
/// nothing where the definition has no input for it, and else the input's
/// bytes, as often as the input says, each time with the wait that applies.
pub open spec fn spec_dynamic_requests(
    options: PjLinkRS232ProjectorOptions,
    payload: BridgeRawPayload,
) -> Seq<MessageRequestView> {
    match spec_input(options, payload) {
        Some((command, input)) => repeated_request(
            exchange_request(input.send@, spec_timeout(options.behavior, input, command)),
            spec_send_times(input),
        ),
        None => Seq::empty(),
    }
}

/// What a command that the definition translates is answered with, given
/// how the last exchange made for it ended. A command body that the
/// dictionary lacks is undefined, and a parameter that the command lacks is
/// out of parameter; no exchange is made for either. Otherwise the answer is
/// unavailable-time where the worker's reply did not come, and else what the
/// input's rules make of the reply.
pub open spec fn spec_dynamic_response(
    options: PjLinkRS232ProjectorOptions,
    payload: BridgeRawPayload,
    last_outcome: Result<PjLinkRS232MessageResponse, RecvError>,
) -> BridgeResponseView {
    if !options.commands@.contains_key(payload.command_body_with_class@) {
        BridgeResponseView::Undefined
    } else {
        match spec_input(options, payload) {
            Some((command, input)) => spec_exchange_response(input.outputs@, last_outcome),
            None => BridgeResponseView::OutOfParameter,
        }
    }
}

/// What a command asks of the serial worker: an identity query nothing, any
/// other command what the definition says.
pub open spec fn spec_requests(
    options: PjLinkRS232ProjectorOptions,
    command: BridgeCommand,
    payload: BridgeRawPayload,
) -> Seq<MessageRequestView> {
    if spec_static_response(options, command) is Some {
        Seq::empty()
    } else {
        spec_dynamic_requests(options, payload)
    }
}

/// The handler: it answers each PJLink command, asking the serial worker
/// where the answer is the projector's to give.
pub struct PjLinkRS232Projector {
    options: PjLinkRS232ProjectorOptions,
    link: ConnectorLink,
}

impl PjLinkRS232Projector {
    /// The options that the handler answers from.
    pub closed spec fn spec_options(&self) -> PjLinkRS232ProjectorOptions {
        self.options
    }

    /// Every request that the handler has handed to the serial worker,
    /// oldest first.
    pub closed spec fn issued(&self) -> Seq<MessageRequestView> {
        self.link.issued()
    }

    /// How every exchange with the serial worker ended, oldest first: with
    /// the worker's reply, or without one.
    pub closed spec fn outcomes(&self) -> Seq<Result<PjLinkRS232MessageResponse, RecvError>> {
        self.link.outcomes()
    }

    /// A handler that answers from `options` and reaches the serial worker
    /// over the two channel ends.
    pub fn new(
        options: PjLinkRS232ProjectorOptions,
        tx: SyncSender<PjLinkRS232MessageRequest>,
        rx: Receiver<PjLinkRS232MessageResponse>,
    ) -> (handler: Self)
        ensures
            handler.spec_options() == options,
            handler.issued() == Seq::<MessageRequestView>::empty(),
            handler.outcomes() == Seq::<Result<PjLinkRS232MessageResponse, RecvError>>::empty(),
    {
        PjLinkRS232Projector { options, link: ConnectorLink::new(tx, rx) }
    }

    /// The options that the handler answers from.
    pub fn options(&self) -> (options: &PjLinkRS232ProjectorOptions)
        ensures
            *options == self.spec_options(),
    {
        &self.options
    }

    /// Answers one command. The eight identity queries are answered from the
    /// options and ask nothing of the serial worker; any other command is
    /// translated by the definition.
    pub fn handle_command(
        &mut self,
        command: BridgeCommand,
        raw_command: &BridgeRawPayload,
        connection_id: &u64,
    ) -> (response: BridgeResponse)
        ensures
            final(self).spec_options() == old(self).spec_options(),
            final(self).issued() == old(self).issued() + spec_requests(
                old(self).spec_options(),
                command,
                *raw_command,
            ),
            old(self).outcomes().is_prefix_of(final(self).outcomes()),
            final(self).outcomes().len() == old(self).outcomes().len() + spec_requests(
                old(self).spec_options(),
                command,
                *raw_command,
            ).len(),
            match spec_static_response(old(self).spec_options(), command) {
                Some(answer) => response@ == answer,
                None => response@ == spec_dynamic_response(
                    old(self).spec_options(),
                    *raw_command,
                    final(self).outcomes().last(),
                ),
            },
            spec_static_response(old(self).spec_options(), command) is Some ==> {
                &&& final(self).issued() == old(self).issued()
                &&& final(self).outcomes() == old(self).outcomes()
            },
    {
        match command {
            BridgeCommand::Class1 => BridgeResponse::Single(self.options.class_type),
            BridgeCommand::SerialNumber2 => BridgeResponse::Multiple(
                self.options.serial_number.clone(),
            ),
            BridgeCommand::SoftwareVersion2 => BridgeResponse::Multiple(
                self.options.software_version.clone(),
            ),
            BridgeCommand::Name1 => BridgeResponse::Multiple(self.options.projector_name.clone()),
            BridgeCommand::InfoManufacturer1 => BridgeResponse::Multiple(
                self.options.manufacturer_name.clone(),
            ),
            BridgeCommand::InfoProductName1 => BridgeResponse::Multiple(
                self.options.product_name.clone(),
            ),
            BridgeCommand::InputResolution2 => BridgeResponse::Multiple(
                self.options.screen_resolution.clone(),
            ),
            BridgeCommand::RecommendResolution2 => BridgeResponse::Multiple(
                self.options.recommended_screen_resolution.clone(),
            ),
            BridgeCommand::Other => {
                self.handle_dynamic_content(command, raw_command, connection_id)
            },
        }
    }

    /// The password that clients have to authenticate with, if one is set.
    pub fn get_password(&mut self, _connection_id: &u64) -> (password: Option<String>)
        ensures
            password == old(self).spec_options().password,
            final(self).spec_options() == old(self).spec_options(),
            final(self).issued() == old(self).issued(),
            final(self).outcomes() == old(self).outcomes(),
    {
        match &self.options.password {
            Some(password) => Some(password.clone()),
            None => None,
        }
    }

    /// Translates one command by the definition: looks the command body and
    /// the parameter up, has the input's bytes sent as often as it says, and
    /// maps the last reply.
    pub fn handle_dynamic_content(
        &mut self,
        _command: BridgeCommand,
        raw_command: &BridgeRawPayload,
        connection_id: &u64,
    ) -> (response: BridgeResponse)
        ensures
            final(self).spec_options() == old(self).spec_options(),
            final(self).issued() == old(self).issued() + spec_dynamic_requests(
                old(self).spec_options(),
                *raw_command,
            ),
            spec_input(old(self).spec_options(), *raw_command) is None ==> final(self).issued()
                == old(self).issued(),
            spec_input(old(self).spec_options(), *raw_command) is None ==> final(self).outcomes()
                == old(self).outcomes(),
            old(self).outcomes().is_prefix_of(final(self).outcomes()),
            final(self).outcomes().len() == old(self).outcomes().len() + spec_dynamic_requests(
                old(self).spec_options(),
                *raw_command,
            ).len(),
            response@ == spec_dynamic_response(
                old(self).spec_options(),
                *raw_command,
                final(self).outcomes().last(),
            ),
    {
        let ghost before = self.issued();
        let ghost ended = self.outcomes();
        assert(before + Seq::<MessageRequestView>::empty() =~= before);
        let request_body = raw_command.command_body_with_class;
        let command_spec_result = self.options.commands.get(request_body.as_slice());

        if let Some(command_spec) = command_spec_result {
            let request_parameter = raw_command.transmission_parameter.clone();
            if let Some(command_input_definition) = command_spec.inputs.get(
                request_parameter.as_slice(),
            ) {
                let timeout = self.get_timeout(
                    &self.options.behavior,
                    command_input_definition,
                    command_spec,
                );
                let message = command_input_definition.send.clone();
                let send_times = command_input_definition.send_times.unwrap_or(1);
                let ghost request = exchange_request(message@, timeout);

                let recv_message = if send_times > 1 {
                    let mut result = self.link.send_and_receive_message(
                        message.clone(),
                        timeout,
                        connection_id,
                    );
                    let mut sent: u32 = 1;
                    assert(self.link.issued() =~= before + repeated_request(request, 1));
                    while sent < send_times
                        invariant
                            1 <= sent <= send_times,
                            self.options == old(self).options,
                            request == exchange_request(message@, timeout),
                            self.link.issued() == before + repeated_request(request, sent as nat),
                            ended.is_prefix_of(self.link.outcomes()),
                            self.link.outcomes().len() == ended.len() + sent,
                            self.link.outcomes().last() == result,
                        decreases send_times - sent,
                    {
                        result = self.link.send_and_receive_message(
                            message.clone(),
                            timeout,
                            connection_id,
                        );
                        sent += 1;
                        assert(self.link.issued() =~= before + repeated_request(
                            request,
                            sent as nat,
                        ));
                    }
                    result
                } else {
                    let result = self.link.send_and_receive_message(
                        message,
                        timeout,
                        connection_id,
                    );
                    assert(self.link.issued() =~= before + repeated_request(request, 1));
                    result
                };
                assert(self.link.issued() == before + repeated_request(
                    request,
                    spec_send_times(*command_input_definition),
                ));

                self.handle_exchange_outcome(
                    request_body,
                    request_parameter,
                    recv_message,
                    command_input_definition,
                    connection_id,
                )
            } else {
                BridgeResponse::OutOfParameter
            }
        } else {
            BridgeResponse::Undefined
        }
    }

    /// Answers the outcome of an exchange: a reply is mapped by the input's
    /// rules, and a reply that did not come is unavailable-time.
    pub fn handle_exchange_outcome(
        &self,
        request_body: [u8; 5],
        request_parameter: Vec<u8>,
        outcome: Result<PjLinkRS232MessageResponse, RecvError>,
        command_input_definition: &BridgeDefinitionCommandDefinition,
        connection_id: &u64,
    ) -> (answer: BridgeResponse)
        ensures
            answer@ == spec_exchange_response(command_input_definition.outputs@, outcome),
    {
        match outcome {
            Ok(response) => self.handle_connector_response(
                request_body,
                request_parameter,
                response,
                command_input_definition,
                connection_id,
            ),
            Err(_) => BridgeResponse::UnavailableTime,
        }
    }

    /// Maps the worker's reply by the input's rules, in declared order: the
    /// first exact-match rule whose bytes equal the reply gives its token. A
    /// rule map cannot be carried out, so the exchange ends at it with
    /// out-of-parameter, as it does where no rule names the reply.
    pub fn handle_connector_response(
        &self,
        request_body: [u8; 5],
        _request_parameter: Vec<u8>,
        response: PjLinkRS232MessageResponse,
        command_input_definition: &BridgeDefinitionCommandDefinition,
        connection_id: &u64,
    ) -> (answer: BridgeResponse)
        ensures
            answer@ == spec_connector_response(
                command_input_definition.outputs@,
                response.response@,
            ),
    {
        let projector_response = &response.response;
        let ghost outputs = command_input_definition.outputs@;
        let ghost reply = response.response@;
        let mut index: usize = 0;
        while index < command_input_definition.outputs.len()
            invariant
                index <= outputs.len(),
                outputs == command_input_definition.outputs@,
                reply == response.response@,
                projector_response == &response.response,
                forall|earlier: int|
                    0 <= earlier < index ==> !rule_settles(#[trigger] outputs[earlier], reply),
            decreases outputs.len() - index,
        {
            let rule = &command_input_definition.outputs[index];
            match &rule.on_received {
                BridgeDefinitionCommandDefinitionOutputProjectorResponse::Value(
                    command_on_received_value,
                ) => {
                    if let Some(handler_response_value) = self.handle_connector_response_value(
                        &request_body,
                        projector_response.as_slice(),
                        command_on_received_value.as_slice(),
                        &rule.response,
                        connection_id,
                    ) {
                        proof {
                            lemma_first_settling_rule_answers(outputs, index as int, reply);
                        }
                        return handler_response_value;
                    }
                },
                BridgeDefinitionCommandDefinitionOutputProjectorResponse::RuleMap(_, _) => {
                    proof {
                        lemma_first_settling_rule_answers(outputs, index as int, reply);
                    }
                    return BridgeResponse::OutOfParameter;
                },
            }
            index += 1;
        }
        BridgeResponse::OutOfParameter
    }

    /// Holds the projector's reply against the bytes of one exact-match rule:
    /// the rule's token where they are equal, nothing where they are not.
    pub fn handle_connector_response_value(
        &self,
        _request_body: &[u8; 5],
        projector_response: &[u8],
        command_on_received: &[u8],
        command_response: &BridgeDefinitionCommandDefinitionOutputResponse,
        _connection_id: &u64,
    ) -> (answer: Option<BridgeResponse>)
        ensures
            projector_response@ == command_on_received@ ==> (answer matches Some(token)
                && token@ == BridgeResponseView::Mapped(command_response.spec_token())),
            projector_response@ != command_on_received@ ==> answer is None,
    {
        if bytes_equal(projector_response, command_on_received) {
            match command_response {
                BridgeDefinitionCommandDefinitionOutputResponse::Value(command_response_value) => {
                    Some(BridgeResponse::Mapped(command_response_value.clone()))
                },
                BridgeDefinitionCommandDefinitionOutputResponse::Default(command_response) => {
                    Some(BridgeResponse::Mapped(command_response.clone()))
                },
            }
        } else {
            None
        }
    }

    /// The wait, in milliseconds, that an exchange is given: the input's own
    /// comes first, then the command's, then the definition's; with none of
    /// them set there is no wait.
    pub fn get_timeout(
        &self,
        behavior: &BridgeDefinitionBehavior,
        command_input_definition: &BridgeDefinitionCommandDefinition,
        command_spec: &BridgeDefinitionCommand,
    ) -> (timeout: u32)
        ensures
            timeout == spec_timeout(*behavior, *command_input_definition, *command_spec),
            command_input_definition.wait_for_response is Some ==> timeout
                == command_input_definition.wait_for_response.unwrap(),
            command_input_definition.wait_for_response is None
                && command_spec.wait_for_response is Some ==> timeout
                == command_spec.wait_for_response.unwrap(),
            command_input_definition.wait_for_response is None
                && command_spec.wait_for_response is None && behavior.wait_for_response is Some
                ==> timeout == behavior.wait_for_response.unwrap(),
            command_input_definition.wait_for_response is None
                && command_spec.wait_for_response is None && behavior.wait_for_response is None
                ==> timeout == 0,
    {
        if let Some(cd_wait_for_response) = command_input_definition.wait_for_response {
            cd_wait_for_response
        } else if let Some(cs_wait_for_response) = command_spec.wait_for_response {
            cs_wait_for_response
        } else {
            behavior.wait_for_response.unwrap_or(0)
        }
    }
}

/// The first rule that settles is the one whose verdict is given.
pub proof fn lemma_first_settling_rule_answers(
    outputs: Seq<BridgeDefinitionCommandDefinitionOutput>,
    index: int,
    reply: Seq<u8>,
)
    requires
        first_settling_rule(outputs, index, reply),
    ensures
        spec_connector_response(outputs, reply) == rule_verdict(outputs[index]),
{
    let chosen = choose|index: int| first_settling_rule(outputs, index, reply);
    assert(first_settling_rule(outputs, chosen, reply));
    if chosen < index {
        assert(!rule_settles(outputs[chosen], reply));
    } else if index < chosen {
        assert(!rule_settles(outputs[index], reply));
    }
}

/// A configured reply comes back as its token: where a rule names exactly the
/// bytes that the projector sent, and no earlier rule names them too or is a
/// rule map, the answer is that rule's token.
pub proof fn lemma_configured_reply_gives_token(
    outputs: Seq<BridgeDefinitionCommandDefinitionOutput>,
    index: int,
    reply: Seq<u8>,
)
    requires
        0 <= index < outputs.len(),
        outputs[index].on_received
            matches BridgeDefinitionCommandDefinitionOutputProjectorResponse::Value(expected)
            && expected@ == reply,
        forall|earlier: int|
            0 <= earlier < index ==> !rule_settles(#[trigger] outputs[earlier], reply),
    ensures
        spec_connector_response(outputs, reply) == BridgeResponseView::Mapped(
            outputs[index].response.spec_token(),
        ),
{
    lemma_first_settling_rule_answers(outputs, index, reply);
}

/// The whole way of a configured mapping: where the definition has an input
/// for the command and its parameter, and a rule of that input names exactly
/// the bytes that the worker replied with, and no earlier rule names them too
/// or is a rule map, the exchange is answered with that rule's token.
pub proof fn lemma_configured_mapping_round_trip(
    options: PjLinkRS232ProjectorOptions,
    payload: BridgeRawPayload,
    index: int,
    reply: PjLinkRS232MessageResponse,
)
    requires
        spec_input(options, payload) is Some,
        0 <= index < spec_input(options, payload).unwrap().1.outputs@.len(),
        spec_input(options, payload).unwrap().1.outputs@[index].on_received
            matches BridgeDefinitionCommandDefinitionOutputProjectorResponse::Value(expected)
            && expected@ == reply.response@,
        forall|earlier: int|
            0 <= earlier < index ==> !rule_settles(
                #[trigger] spec_input(options, payload).unwrap().1.outputs@[earlier],
                reply.response@,
            ),
    ensures
        spec_exchange_response(
            spec_input(options, payload).unwrap().1.outputs@,
            Ok(reply),
        ) == BridgeResponseView::Mapped(
            spec_input(options, payload).unwrap().1.outputs@[index].response.spec_token(),
        ),
        spec_dynamic_response(options, payload, Ok(reply)) == BridgeResponseView::Mapped(
            spec_input(options, payload).unwrap().1.outputs@[index].response.spec_token(),
        ),
{
    let outputs = spec_input(options, payload).unwrap().1.outputs@;
    lemma_configured_reply_gives_token(outputs, index, reply.response@);
    let outcome: Result<PjLinkRS232MessageResponse, RecvError> = Ok(reply);
    assert(spec_exchange_response(outputs, outcome) == BridgeResponseView::Mapped(
        outputs[index].response.spec_token(),
    ));
}

/// As many writes as the input says: a command that the definition has an
/// input for asks the worker `send_times` times, and once where the input
/// says nothing or less than twice, and each request carries the input's
/// bytes and the wait that applies to it.
pub proof fn lemma_requests_are_send_times_copies(
    options: PjLinkRS232ProjectorOptions,
    payload: BridgeRawPayload,
)
    requires
        spec_input(options, payload) is Some,
    ensures
        ({
            let (command, input) = spec_input(options, payload).unwrap();
            let asked = spec_dynamic_requests(options, payload);
            &&& asked.len() == spec_send_times(input)
            &&& asked.len() >= 1
            &&& (input.send_times is Some && input.send_times.unwrap() >= 1) ==> asked.len()
                == input.send_times.unwrap()
            &&& forall|i: int|
                0 <= i < asked.len() ==> {
                    &&& (#[trigger] asked[i]).message == input.send@
                    &&& asked[i].timeout == spec_timeout(options.behavior, input, command)
                    &&& !asked[i].stop_processing
                }
        }),
{
}

/// A reply that no rule settles, none naming it and none being a rule map,
/// is answered with out-of-parameter.
pub proof fn lemma_unmapped_reply_is_out_of_parameter(
    outputs: Seq<BridgeDefinitionCommandDefinitionOutput>,
    reply: Seq<u8>,
)
    requires
        forall|index: int|
            0 <= index < outputs.len() ==> !rule_settles(#[trigger] outputs[index], reply),
    ensures
        spec_connector_response(outputs, reply) == BridgeResponseView::OutOfParameter,
{
}

} // verus!
