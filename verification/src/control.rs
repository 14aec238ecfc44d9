//! What clients may ask of the daemon, and how both sides talk.
use crate::address;
use crate::daemon::Command;
use crate::json::{self, Json, JsonView};
use crate::model::{initial_snapshot, Mode, Snapshot, SnapshotView};
use crate::policy::CommandView;
use crate::storage::{failure, Config, ConfigView};
use crate::text;
use vstd::prelude::*;

verus! {

/// A request on the control socket.
pub enum WireCommand {
    Status,
    Watch,
    Setup { address: String },
    Mode { mode: Mode },
    Release,
}

pub enum WireCommandView {
    Status,
    Watch,
    Setup { address: Seq<char> },
    Mode { mode: Mode },
    Release,
}

impl View for WireCommand {
    type V = WireCommandView;

    open spec fn view(&self) -> WireCommandView {
        match self {
            WireCommand::Status => WireCommandView::Status,
            WireCommand::Watch => WireCommandView::Watch,
            WireCommand::Setup { address } => WireCommandView::Setup { address: address@ },
            WireCommand::Mode { mode } => WireCommandView::Mode { mode: *mode },
            WireCommand::Release => WireCommandView::Release,
        }
    }
}

/// The length of the longest request, with the newline that ends it.
pub const REQUEST_LIMIT: usize = 4096;

/// The length of the longest response, with the newline that ends it.
pub const RESPONSE_LIMIT: usize = 65536;

/// The byte that ends a request and a response.
pub const END: u8 = 10;

/// Whether a client runs for the same user as the daemon.
pub fn authorize(peer: u32, user: u32) -> (r: Result<(), String>)
    ensures
        failure(r) == if peer == user {
            None
        } else {
            Some("control client has different ownership"@)
        },
{
    if peer == user {
        Ok(())
    } else {
        Err("control client has different ownership".to_owned())
    }
}

/// A request that is neither missing, too long nor cut short.
pub open spec fn request_framed(line: Seq<u8>) -> bool {
    0 < line.len() <= REQUEST_LIMIT && line.last() == END
}

/// Whether what a client sent is one whole request.
pub fn check_request(line: &[u8]) -> (r: Result<(), String>)
    ensures
        failure(r) == if request_framed(line@) {
            None
        } else {
            Some("invalid control request size"@)
        },
{
    if line.len() == 0 || line.len() > REQUEST_LIMIT || line[line.len() - 1] != END {
        Err("invalid control request size".to_owned())
    } else {
        Ok(())
    }
}

/// The bytes of a message as it goes over the wire.
pub open spec fn framed(bytes: Seq<u8>) -> Seq<u8> {
    bytes.push(END)
}

/// A message as it goes over the wire.
pub fn frame(bytes: Vec<u8>) -> (r: Vec<u8>)
    ensures
        r@ == framed(bytes@),
        r@ == bytes@.push(END),
{
    let mut out = bytes;
    out.push(END);
    out
}

/// How a request is served: with the present state, with every state from now on,
/// or by the policy.
pub enum Service {
    Show,
    Follow,
    Forward(Command),
}

pub enum ServiceView {
    Show,
    Follow,
    Forward(CommandView),
}

impl View for Service {
    type V = ServiceView;

    open spec fn view(&self) -> ServiceView {
        match self {
            Service::Show => ServiceView::Show,
            Service::Follow => ServiceView::Follow,
            Service::Forward(command) => ServiceView::Forward(command@),
        }
    }
}

impl WireCommandView {
    pub open spec fn service(self) -> ServiceView {
        match self {
            WireCommandView::Status => ServiceView::Show,
            WireCommandView::Watch => ServiceView::Follow,
            WireCommandView::Setup { address } => ServiceView::Forward(
                CommandView::Setup(address),
            ),
            WireCommandView::Mode { mode } => ServiceView::Forward(CommandView::Mode(mode)),
            WireCommandView::Release => ServiceView::Forward(CommandView::Release),
        }
    }
}

/// How a request is served.
pub fn serve(command: WireCommand) -> (r: Service)
    ensures
        r@ == command@.service(),
{
    match command {
        WireCommand::Status => Service::Show,
        WireCommand::Watch => Service::Follow,
        WireCommand::Setup { address } => Service::Forward(Command::Setup(address)),
        WireCommand::Mode { mode } => Service::Forward(Command::Mode(mode)),
        WireCommand::Release => Service::Forward(Command::Release),
    }
}

/// The number of clients that are served at a time.
pub const SLOTS: usize = 16;

/// The clients that are being served.
pub struct Slots {
    taken: usize,
}

impl View for Slots {
    type V = nat;

    closed spec fn view(&self) -> nat {
        self.taken as nat
    }
}

impl Slots {
    #[verifier::type_invariant]
    spec fn enough(self) -> bool {
        self.taken <= SLOTS
    }

    pub fn new() -> (r: Slots)
        ensures
            r@ == 0,
    {
        Slots { taken: 0 }
    }

    /// Takes a slot for a client, if one is free.
    pub fn take(&mut self) -> (r: bool)
        ensures
            old(self)@ <= SLOTS,
            final(self)@ <= SLOTS,
            r == (old(self)@ < SLOTS),
            final(self)@ == if r {
                old(self)@ + 1
            } else {
                old(self)@
            },
    {
        proof {
            use_type_invariant(&*self);
        }
        if self.taken < SLOTS {
            self.taken = self.taken + 1;
            true
        } else {
            false
        }
    }

    /// Frees the slot of a client that is gone.
    pub fn leave(&mut self)
        ensures
            final(self)@ == if old(self)@ > 0 {
                (old(self)@ - 1) as nat
            } else {
                0
            },
    {
        proof {
            use_type_invariant(&*self);
        }
        if self.taken > 0 {
            self.taken = self.taken - 1;
        }
    }
}

/// What is shown until the policy has started.
pub open spec fn starting(stored: Option<ConfigView>) -> SnapshotView {
    match stored {
        Some(config) => if config.configured() {
            SnapshotView {
                configured: true,
                name: config.name,
                status: "error"@,
                error: Some("Initializing Bluetooth connection guard"@),
                ..initial_snapshot()
            }
        } else {
            SnapshotView { name: config.name, ..initial_snapshot() }
        },
        None => initial_snapshot(),
    }
}

/// What is shown until the policy has started.
pub fn starting_snapshot(stored: Option<&Config>) -> (r: Snapshot)
    ensures
        r@ == starting(
            match stored {
                Some(config) => Some(config@),
                None => None,
            },
        ),
{
    let mut snapshot = Snapshot::default();
    if let Some(config) = stored {
        snapshot.configured = config.configured();
        snapshot.name = config.name.clone();
        if snapshot.configured {
            snapshot.status = "error".to_owned();
            snapshot.error = Some("Initializing Bluetooth connection guard".to_owned());
        }
    }
    snapshot
}

/// What a client shows while there is no daemon. `Err` is a configuration that
/// could not be read.
pub open spec fn offline(
    stored: Result<Option<ConfigView>, ()>,
    reason: Seq<char>,
) -> SnapshotView {
    match stored {
        Ok(Some(config)) => SnapshotView {
            configured: config.configured(),
            name: config.name,
            status: "error"@,
            error: Some(reason),
            ..initial_snapshot()
        },
        Ok(None) => SnapshotView { status: "error"@, error: Some(reason), ..initial_snapshot() },
        Err(_) => SnapshotView {
            status: "error"@,
            error: Some("Invalid private configuration; daemon unavailable"@),
            ..initial_snapshot()
        },
    }
}

/// What a client shows while there is no daemon.
pub fn offline_snapshot(stored: Result<Option<Config>, ()>, reason: &str) -> (r: Snapshot)
    ensures
        r@ == offline(
            match stored {
                Ok(config) => Ok(config.deep_view()),
                Err(_) => Err(()),
            },
            reason@,
        ),
{
    let mut snapshot = Snapshot::default();
    match stored {
        Ok(Some(config)) => {
            snapshot.configured = config.configured();
            snapshot.name = config.name;
        },
        Ok(None) => {},
        Err(_) => {
            snapshot.error = Some("Invalid private configuration; daemon unavailable".to_owned());
        },
    }
    snapshot.status = "error".to_owned();
    if snapshot.error.is_none() {
        snapshot.error = Some(reason.to_owned());
    }
    snapshot
}

/// A snapshot without a daemon claims no connection and says what is wrong.
pub proof fn offline_snapshots_claim_nothing(
    stored: Result<Option<ConfigView>, ()>,
    reason: Seq<char>,
)
    ensures
        offline(stored, reason).schema == 1,
        offline(stored, reason).status == "error"@,
        !offline(stored, reason).connected,
        offline(stored, reason).error is Some,
        offline(stored, reason).mode is None,
        offline(stored, reason).in_ear == crate::model::unknown_ears(),
        offline(stored, reason).battery == crate::model::unknown_battery(),
{
}

/// What a response refuses, if it refuses anything.
pub open spec fn refusal(response: JsonView) -> Option<Seq<char>> {
    if response.member("ok"@) == JsonView::Bool(false) {
        match response.member("error"@).text() {
            Some(message) => Some(message),
            None => Some("command failed"@),
        }
    } else {
        None
    }
}

/// Whether a response refuses the request.
pub fn answer(response: &Json) -> (r: Result<(), String>)
    ensures
        failure(r) == refusal(response@),
{
    match response.member("ok") {
        Some(Json::Bool(false)) => match response.text_member("error") {
            Some(message) => Err(message.clone()),
            None => Err("command failed".to_owned()),
        },
        _ => Ok(()),
    }
}

/// What is wrong with a line that the daemon sent, if anything is.
pub open spec fn objection(line: Seq<u8>) -> Option<Seq<char>> {
    if line.len() == 0 {
        Some("daemon control connection closed"@)
    } else if line.len() > RESPONSE_LIMIT {
        Some("daemon response exceeds protocol limit"@)
    } else {
        match json::document(line) {
            Ok(value) => refusal(value),
            Err(message) => Some("invalid daemon response: "@ + message),
        }
    }
}

/// Whether a line that the daemon sent is a response that does not refuse the
/// request.
pub fn response(line: &[u8]) -> (r: Result<(), String>)
    ensures
        failure(r) == objection(line@),
{
    if line.len() == 0 {
        return Err("daemon control connection closed".to_owned());
    }
    if line.len() > RESPONSE_LIMIT {
        return Err("daemon response exceeds protocol limit".to_owned());
    }
    match json::parse(line) {
        Ok(value) => answer(&value),
        Err(message) => Err(text::join("invalid daemon response: ", message.as_str())),
    }
}

/// What the program was called for.
pub enum Invocation {
    Daemon,
    Guard,
    Client(WireCommand),
    Help,
}

pub enum InvocationView {
    Daemon,
    Guard,
    Client(WireCommandView),
    Help,
}

impl View for Invocation {
    type V = InvocationView;

    open spec fn view(&self) -> InvocationView {
        match self {
            Invocation::Daemon => InvocationView::Daemon,
            Invocation::Guard => InvocationView::Guard,
            Invocation::Client(command) => InvocationView::Client(command@),
            Invocation::Help => InvocationView::Help,
        }
    }
}

/// The mode that a word names.
pub open spec fn mode_named(word: Seq<char>) -> Option<Mode> {
    if word == "off"@ {
        Some(Mode::Off)
    } else if word == "anc"@ {
        Some(Mode::Anc)
    } else if word == "transparency"@ {
        Some(Mode::Transparency)
    } else if word == "adaptive"@ {
        Some(Mode::Adaptive)
    } else {
        None
    }
}

fn named_mode(word: &str) -> (r: Option<Mode>)
    ensures
        r == mode_named(word@),
{
    if text::same(word, "off") {
        Some(Mode::Off)
    } else if text::same(word, "anc") {
        Some(Mode::Anc)
    } else if text::same(word, "transparency") {
        Some(Mode::Transparency)
    } else if text::same(word, "adaptive") {
        Some(Mode::Adaptive)
    } else {
        None
    }
}

/// The request that two words stand for.
pub open spec fn invoked_with(word: Seq<char>, argument: Seq<char>) -> Result<
    InvocationView,
    Seq<char>,
> {
    if word == "setup"@ {
        match address::parsed(argument) {
            Ok(address) => Ok(
                InvocationView::Client(
                    WireCommandView::Setup { address: address::written(address) },
                ),
            ),
            Err(message) => Err("invalid Bluetooth address: "@ + message),
        }
    } else if word == "mode"@ {
        match mode_named(argument) {
            Some(mode) => Ok(InvocationView::Client(WireCommandView::Mode { mode })),
            None => Err("mode must be off, anc, transparency, or adaptive"@),
        }
    } else {
        misused()
    }
}

/// The request that one word stands for.
pub open spec fn invoked(word: Seq<char>) -> Result<InvocationView, Seq<char>> {
    if word == "daemon"@ {
        Ok(InvocationView::Daemon)
    } else if word == "guard"@ {
        Ok(InvocationView::Guard)
    } else if word == "status"@ {
        Ok(InvocationView::Client(WireCommandView::Status))
    } else if word == "watch"@ {
        Ok(InvocationView::Client(WireCommandView::Watch))
    } else if word == "release"@ {
        Ok(InvocationView::Client(WireCommandView::Release))
    } else if word == "--help"@ || word == "-h"@ {
        Ok(InvocationView::Help)
    } else {
        misused()
    }
}

pub open spec fn misused() -> Result<InvocationView, Seq<char>> {
    Err(
        "usage: airpodsd daemon|watch|status|setup <MAC>|mode <off|anc|transparency|adaptive>|release"@,
    )
}

/// What the program is called for, or what is wrong with the call.
pub open spec fn invocation(words: Seq<Seq<char>>) -> Result<InvocationView, Seq<char>> {
    if words.len() == 1 {
        invoked(words[0])
    } else if words.len() == 2 {
        invoked_with(words[0], words[1])
    } else {
        misused()
    }
}

/// The view of an invocation or of what is wrong with it.
pub open spec fn invocation_of(result: Result<Invocation, String>) -> Result<
    InvocationView,
    Seq<char>,
> {
    match result {
        Ok(invocation) => Ok(invocation@),
        Err(message) => Err(message@),
    }
}

fn misuse() -> (r: Result<Invocation, String>)
    ensures
        invocation_of(r) == misused(),
{
    Err(
        "usage: airpodsd daemon|watch|status|setup <MAC>|mode <off|anc|transparency|adaptive>|release".to_owned(),
    )
}

fn invoke(word: &str) -> (r: Result<Invocation, String>)
    ensures
        invocation_of(r) == invoked(word@),
{
    if text::same(word, "daemon") {
        Ok(Invocation::Daemon)
    } else if text::same(word, "guard") {
        Ok(Invocation::Guard)
    } else if text::same(word, "status") {
        Ok(Invocation::Client(WireCommand::Status))
    } else if text::same(word, "watch") {
        Ok(Invocation::Client(WireCommand::Watch))
    } else if text::same(word, "release") {
        Ok(Invocation::Client(WireCommand::Release))
    } else if text::same(word, "--help") || text::same(word, "-h") {
        Ok(Invocation::Help)
    } else {
        misuse()
    }
}

fn invoke_with(word: &str, argument: &str) -> (r: Result<Invocation, String>)
    ensures
        invocation_of(r) == invoked_with(word@, argument@),
{
    if text::same(word, "setup") {
        match address::parse(argument) {
            Ok(address) => Ok(
                Invocation::Client(WireCommand::Setup { address: address::write(address) }),
            ),
            Err(message) => Err(text::join("invalid Bluetooth address: ", message.as_str())),
        }
    } else if text::same(word, "mode") {
        match named_mode(argument) {
            Some(mode) => Ok(Invocation::Client(WireCommand::Mode { mode })),
            None => Err("mode must be off, anc, transparency, or adaptive".to_owned()),
        }
    } else {
        misuse()
    }
}

/// What the program is called for, by the words that follow its name.
pub fn execute(words: &Vec<String>) -> (r: Result<Invocation, String>)
    ensures
        invocation_of(r) == invocation(words.deep_view()),
{
    if words.len() == 1 {
        invoke(words[0].as_str())
    } else if words.len() == 2 {
        invoke_with(words[0].as_str(), words[1].as_str())
    } else {
        misuse()
    }
}

/// The text that explains the calls.
pub open spec fn explanation() -> Seq<char> {
    "airpodsd daemon|watch|status|setup <MAC>|mode <off|anc|transparency|adaptive>|release\nSetup is the explicit one-time connection exception. Release restores the device's original Blocked setting.\nThe internal guard command reapplies the owned block after a service failure."@
}

/// What is said when help is asked for.
pub fn help() -> (r: String)
    ensures
        r@ == explanation(),
{
    "airpodsd daemon|watch|status|setup <MAC>|mode <off|anc|transparency|adaptive>|release\nSetup is the explicit one-time connection exception. Release restores the device's original Blocked setting.\nThe internal guard command reapplies the owned block after a service failure.".to_owned()
}

/// A framed request that holds no newline of its own is accepted exactly when it
/// is short enough.
pub proof fn framed_requests_are_accepted(bytes: Seq<u8>)
    ensures
        request_framed(bytes.push(END)) == (bytes.len() < REQUEST_LIMIT),
{
}

/// A request that a client makes by address reaches the policy with an address
/// that it can read, and that is the one that was meant.
pub proof fn setup_requests_name_the_device(word: Seq<char>, argument: Seq<char>)
    ensures
        invoked_with(word, argument) matches Ok(
            InvocationView::Client(WireCommandView::Setup { address }),
        ) ==> address::parsed(argument) is Ok && address::parsed(address) == address::parsed(
            argument,
        ),
{
    if let Ok(address) = address::parsed(argument) {
        address::written_addresses_are_read(address);
    }
}

} // verus!
