//! Client side of the line protocol spoken by the UPS management daemon.
//!
//! The library never touches a socket. It says which line to send next and
//! what a received line means; the caller moves the bytes.

use crate::binary64::Binary64;
use crate::text::{
    chars_of, contains, decimal, has_infix, has_prefix, join, join_from, optional_text, parse_u64,
    parse_u64_of, push_decimal, same_text, split_whitespace, starts_with, string_of, tokens, trim_quotes,
    trim_quotes_of, views,
};
use vstd::prelude::*;
use vstd::string::StringExecFns;

verus! {

/// The two steps of logging in.
#[derive(Clone, Copy, Debug, PartialEq, Eq, Structural)]
pub enum AuthStage {
    Username,
    Password,
}

/// What was wrong with a line the daemon sent.
#[derive(Clone, Copy, Debug, PartialEq, Eq, Structural)]
pub enum ProtocolFault {
    /// The daemon answered with an error: the line holds `ERR`.
    ErrorReply,
    /// The line is not an answer to the request, or the stream ended.
    Malformed,
}

/// Why an operation on the device failed.
#[derive(Clone, Copy, Debug, PartialEq, Eq, Structural)]
pub enum UpsError {
    /// The connection could not be opened, or it broke.
    Connection,
    /// The daemon did not accept the credential sent at this stage.
    Authentication(AuthStage),
    /// The daemon's answer could not be used.
    Protocol(ProtocolFault),
}

/// One reading of the device.
#[derive(Debug)]
pub struct UpsStatus {
    /// Battery charge in percent.
    pub battery_charge: Binary64,
    /// Estimated runtime on battery, in seconds.
    pub battery_runtime: u64,
    /// The status tokens as the device reports them.
    pub ups_status: String,
    /// Whether the device runs on battery, as the status tokens say.
    pub on_battery: bool,
    /// Output power in watts, where the device reports it.
    pub output_power: Option<Binary64>,
}

/// What a reading says; the two floating-point numbers are given by their bit patterns.
pub struct UpsStatusView {
    pub battery_charge: u64,
    pub battery_runtime: u64,
    pub ups_status: Seq<char>,
    pub on_battery: bool,
    pub output_power: Option<u64>,
}

/// The bit pattern of an optional number.
pub open spec fn optional_bits(o: Option<Binary64>) -> Option<u64> {
    match o {
        Some(b) => Some(b.bits),
        None => None,
    }
}

impl View for UpsStatus {
    type V = UpsStatusView;

    open spec fn view(&self) -> UpsStatusView {
        UpsStatusView {
            battery_charge: self.battery_charge.bits,
            battery_runtime: self.battery_runtime,
            ups_status: self.ups_status@,
            on_battery: self.on_battery,
            output_power: optional_bits(self.output_power),
        }
    }
}

impl Clone for UpsStatus {
    fn clone(&self) -> (r: Self)
        ensures
            r@ == self@,
    {
        UpsStatus {
            battery_charge: self.battery_charge,
            battery_runtime: self.battery_runtime,
            ups_status: self.ups_status.clone(),
            on_battery: self.on_battery,
            output_power: self.output_power,
        }
    }
}

/// The connection settings of one device.
pub struct UpsClient {
    host: String,
    port: u16,
    name: String,
    username: Option<String>,
    password: Option<String>,
}

/// What a client knows about its device.
pub struct UpsClientView {
    pub host: Seq<char>,
    pub port: u16,
    pub name: Seq<char>,
    pub username: Option<Seq<char>>,
    pub password: Option<Seq<char>>,
}

impl View for UpsClient {
    type V = UpsClientView;

    closed spec fn view(&self) -> UpsClientView {
        UpsClientView {
            host: self.host@,
            port: self.port,
            name: self.name@,
            username: optional_text(self.username),
            password: optional_text(self.password),
        }
    }
}

impl UpsClient {
    /// A client for the device `name` of the daemon at `host:port`, which
    /// logs in first where both a user name and a password are given.
    pub fn new(
        host: String,
        port: u16,
        name: String,
        username: Option<String>,
        password: Option<String>,
    ) -> (client: Self)
        ensures
            client@ == (UpsClientView {
                host: host@,
                port,
                name: name@,
                username: optional_text(username),
                password: optional_text(password),
            }),
    {
        UpsClient { host, port, name, username, password }
    }
}

// ---------------------------------------------------------------------------
// Lines sent
// ---------------------------------------------------------------------------

/// The address to connect to: the host, a colon, the port.
pub open spec fn address_of(client: UpsClientView) -> Seq<char> {
    client.host + ":"@ + decimal(client.port as nat)
}

/// The line that sends a credential.
pub open spec fn auth_line(stage: AuthStage, credential: Seq<char>) -> Seq<char> {
    (match stage {
        AuthStage::Username => "USERNAME "@,
        AuthStage::Password => "PASSWORD "@,
    }) + credential + "\n"@
}

/// The credential that a stage sends, where it is configured.
pub open spec fn credential_of(client: UpsClientView, stage: AuthStage) -> Option<Seq<char>> {
    match stage {
        AuthStage::Username => client.username,
        AuthStage::Password => client.password,
    }
}

/// The line that asks for one variable of a device.
pub open spec fn get_var_line(device: Seq<char>, variable: Seq<char>) -> Seq<char> {
    "GET VAR "@ + device + " "@ + variable + "\n"@
}

/// The line that asks for all variables of a device.
pub open spec fn list_var_line(device: Seq<char>) -> Seq<char> {
    "LIST VAR "@ + device + "\n"@
}

// ---------------------------------------------------------------------------
// Lines received
// ---------------------------------------------------------------------------

/// The daemon accepted a credential: its answer holds `OK`, in either case
/// of either letter.
pub open spec fn acknowledges(response: Seq<char>) -> bool {
    exists|i: int|
        0 <= i && i + 1 < response.len() && is_letter_o(#[trigger] response[i]) && is_letter_k(
            response[i + 1],
        )
}

/// The letter O, in either case.
pub open spec fn is_letter_o(c: char) -> bool {
    c == 'O' || c == 'o'
}

/// The letter K, in either case.
pub open spec fn is_letter_k(c: char) -> bool {
    c == 'K' || c == 'k'
}

/// The value that the words of an answer carry: the words from the fourth
/// on, joined by single spaces, without the double quotes around the whole.
pub open spec fn value_of(words: Seq<Seq<char>>) -> Seq<char> {
    trim_quotes(join(words.skip(3)))
}

/// What an answer to a request for a variable means. An answer of at least
/// four words that starts with the word `VAR` carries the value. Any other
/// answer is an error reply if it holds `ERR`, and malformed if not.
pub open spec fn var_response(response: Seq<char>) -> Result<Seq<char>, UpsError> {
    let words = tokens(response);
    if words.len() >= 4 && words[0] == "VAR"@ {
        Ok(value_of(words))
    } else if contains(response, "ERR"@) {
        Err(UpsError::Protocol(ProtocolFault::ErrorReply))
    } else {
        Err(UpsError::Protocol(ProtocolFault::Malformed))
    }
}

/// The device runs on battery: its status holds `OB` or `DISCHRG`.
pub open spec fn on_battery_of(status: Seq<char>) -> bool {
    contains(status, "OB"@) || contains(status, "DISCHRG"@)
}

/// The entry that a line of a listing carries: a line that starts with
/// `VAR` and has at least four words names a variable in its third word
/// and carries its value from the fourth word on.
pub open spec fn list_entry(line: Seq<char>) -> Option<(Seq<char>, Seq<char>)> {
    if starts_with(line, "VAR"@) && tokens(line).len() >= 4 {
        Some((tokens(line)[2], value_of(tokens(line))))
    } else {
        None
    }
}

/// The line ends a listing: it starts with `END LIST`, and not with `VAR`.
pub open spec fn ends_list(line: Seq<char>) -> bool {
    !starts_with(line, "VAR"@) && starts_with(line, "END LIST"@)
}

/// The entries of a listing, in the order of its lines, up to the line that
/// ends it. Lines that neither carry an entry nor end the listing are
/// skipped.
pub open spec fn listing(lines: Seq<Seq<char>>) -> Seq<(Seq<char>, Seq<char>)>
    decreases lines.len(),
{
    if lines.len() == 0 {
        Seq::empty()
    } else if list_entry(lines[0]) is Some {
        seq![list_entry(lines[0])->0] + listing(lines.drop_first())
    } else if ends_list(lines[0]) {
        Seq::empty()
    } else {
        listing(lines.drop_first())
    }
}

/// Whether the daemon accepted a credential.
pub fn is_acknowledged(response: &str) -> (ok: bool)
    ensures
        ok == acknowledges(response@),
{
    let chars = chars_of(response);
    if chars.len() < 2 {
        return false;
    }
    let mut i: usize = 0;
    while i + 1 < chars.len()
        invariant
            chars@ == response@,
            2 <= chars.len(),
            i + 1 <= chars.len(),
            forall|j: int|
                0 <= j < i ==> !(is_letter_o(#[trigger] response@[j]) && is_letter_k(
                    response@[j + 1],
                )),
        decreases chars.len() - i,
    {
        let a = chars[i];
        let b = chars[i + 1];
        if (a == 'O' || a == 'o') && (b == 'K' || b == 'k') {
            return true;
        }
        i += 1;
    }
    false
}

/// The value carried by the words of an answer from the fourth word on.
fn value_from(words: &Vec<Vec<char>>) -> (value: String)
    requires
        words.len() >= 3,
    ensures
        value@ == value_of(views(words@)),
{
    string_of(&trim_quotes_of(&join_from(words, 3)))
}

/// Whether the device runs on battery, as its status says.
pub fn is_on_battery(status: &str) -> (on_battery: bool)
    ensures
        on_battery == on_battery_of(status@),
{
    let chars = chars_of(status);
    has_infix(&chars, &chars_of("OB")) || has_infix(&chars, &chars_of("DISCHRG"))
}

// ---------------------------------------------------------------------------
// The operations of a client
// ---------------------------------------------------------------------------

/// The stage that follows an accepted credential: the password after the
/// user name, nothing after the password.
pub open spec fn stage_after(stage: AuthStage) -> Option<AuthStage> {
    match stage {
        AuthStage::Username => Some(AuthStage::Password),
        AuthStage::Password => None,
    }
}

/// What the daemon's answer to a credential means for the login.
pub open spec fn auth_step(stage: AuthStage, response: Seq<char>) -> Result<
    Option<AuthStage>,
    UpsError,
> {
    if acknowledges(response) {
        Ok(stage_after(stage))
    } else {
        Err(UpsError::Authentication(stage))
    }
}

impl UpsClient {
    /// The address to open the connection to.
    pub fn address(&self) -> (address: String)
        ensures
            address@ == address_of(self@),
    {
        let mut address = self.host.clone();
        address.append(":");
        push_decimal(&mut address, self.port as u64);
        address
    }

    /// The name of the device.
    pub fn name(&self) -> (name: &str)
        ensures
            name@ == self@.name,
    {
        self.name.as_str()
    }

    /// The host of the daemon.
    pub fn host(&self) -> (host: &str)
        ensures
            host@ == self@.host,
    {
        self.host.as_str()
    }

    /// What a fresh connection has to do first: log in, starting with the
    /// user name, where both a user name and a password are configured;
    /// nothing otherwise.
    pub fn connect(&self) -> (first: Option<AuthStage>)
        ensures
            first == (if self@.username is Some && self@.password is Some {
                Some(AuthStage::Username)
            } else {
                None
            }),
    {
        if self.username.is_some() && self.password.is_some() {
            Some(AuthStage::Username)
        } else {
            None
        }
    }

    /// The line that sends the credential of a stage; `None` where that
    /// credential is not configured.
    pub fn auth_command(&self, stage: AuthStage) -> (line: Option<String>)
        ensures
            match credential_of(self@, stage) {
                Some(credential) => line is Some && line->0@ == auth_line(stage, credential),
                None => line is None,
            },
    {
        let (keyword, credential) = match stage {
            AuthStage::Username => ("USERNAME ", &self.username),
            AuthStage::Password => ("PASSWORD ", &self.password),
        };
        match credential {
            Some(text) => {
                let mut line = keyword.to_owned();
                line.append(text.as_str());
                line.append("\n");
                Some(line)
            },
            None => None,
        }
    }

    /// Takes the daemon's answer to the credential sent at `stage`. An
    /// answer without `OK` fails the login at that stage; one with it leads
    /// to the next stage, or ends the login after the password.
    pub fn authenticate(stage: AuthStage, response: &str) -> (next: Result<
        Option<AuthStage>,
        UpsError,
    >)
        ensures
            next == auth_step(stage, response@),
    {
        if !is_acknowledged(response) {
            return Err(UpsError::Authentication(stage));
        }
        match stage {
            AuthStage::Username => Ok(Some(AuthStage::Password)),
            AuthStage::Password => Ok(None),
        }
    }

    /// The line that asks for the variable `var_name` of the device.
    pub fn get_var_command(&self, var_name: &str) -> (line: String)
        ensures
            line@ == get_var_line(self@.name, var_name@),
    {
        let mut line = "GET VAR ".to_owned();
        line.append(self.name.as_str());
        line.append(" ");
        line.append(var_name);
        line.append("\n");
        line
    }

    /// Reads the daemon's answer to a request for a variable.
    pub fn get_var(response: &str) -> (value: Result<String, UpsError>)
        ensures
            match var_response(response@) {
                Ok(text) => value is Ok && value->Ok_0@ == text,
                Err(e) => value == Err::<String, UpsError>(e),
            },
    {
        let chars = chars_of(response);
        let words = split_whitespace(&chars);
        if words.len() >= 4 {
            let keyword = chars_of("VAR");
            if same_text(&words[0], &keyword) {
                return Ok(value_from(&words));
            }
        }
        if has_infix(&chars, &chars_of("ERR")) {
            Err(UpsError::Protocol(ProtocolFault::ErrorReply))
        } else {
            Err(UpsError::Protocol(ProtocolFault::Malformed))
        }
    }

    /// The line that asks for all variables of the device.
    pub fn list_vars_command(&self) -> (line: String)
        ensures
            line@ == list_var_line(self@.name),
    {
        let mut line = "LIST VAR ".to_owned();
        line.append(self.name.as_str());
        line.append("\n");
        line
    }
}

// ---------------------------------------------------------------------------
// Listing the variables
// ---------------------------------------------------------------------------

/// The views of a sequence of pairs of strings.
pub open spec fn pair_views(v: Seq<(String, String)>) -> Seq<(Seq<char>, Seq<char>)> {
    v.map_values(|p: (String, String)| (p.0@, p.1@))
}

/// A listing as it is being received.
pub struct VarListing {
    vars: Vec<(String, String)>,
    done: bool,
}

/// What a listing holds.
pub struct VarListingView {
    /// The entries received so far, in order.
    pub entries: Seq<(Seq<char>, Seq<char>)>,
    /// Whether the line that ends the listing has been received.
    pub done: bool,
}

impl View for VarListing {
    type V = VarListingView;

    closed spec fn view(&self) -> VarListingView {
        VarListingView { entries: pair_views(self.vars@), done: self.done }
    }
}

/// The listing after one more line. Nothing changes once the listing has
/// ended.
pub open spec fn fed(state: VarListingView, line: Seq<char>) -> VarListingView {
    if state.done {
        state
    } else if list_entry(line) is Some {
        VarListingView { entries: state.entries.push(list_entry(line)->0), done: false }
    } else if ends_list(line) {
        VarListingView { entries: state.entries, done: true }
    } else {
        state
    }
}

/// The listing after a run of lines.
pub open spec fn fed_all(state: VarListingView, lines: Seq<Seq<char>>) -> VarListingView
    decreases lines.len(),
{
    if lines.len() == 0 {
        state
    } else {
        fed_all(fed(state, lines[0]), lines.drop_first())
    }
}

/// Feeding a run of lines to a listing adds the entries that `listing`
/// finds in them; an ended listing stays as it is.
pub proof fn lemma_fed_all_is_listing(state: VarListingView, lines: Seq<Seq<char>>)
    ensures
        state.done ==> fed_all(state, lines) == state,
        !state.done ==> fed_all(state, lines).entries == state.entries + listing(lines),
    decreases lines.len(),
{
    if lines.len() > 0 {
        lemma_fed_all_is_listing(fed(state, lines[0]), lines.drop_first());
        if !state.done {
            if list_entry(lines[0]) is Some {
                assert(state.entries.push(list_entry(lines[0])->0) + listing(lines.drop_first())
                    == state.entries + (seq![list_entry(lines[0])->0] + listing(
                    lines.drop_first(),
                )));
            } else if ends_list(lines[0]) {
                assert(state.entries + Seq::<(Seq<char>, Seq<char>)>::empty() == state.entries);
            }
        }
    } else {
        assert(state.entries + Seq::<(Seq<char>, Seq<char>)>::empty() == state.entries);
    }
}

/// A listing reads no further than the line that ends it: whatever follows
/// that line, the entries are those of the lines before it.
pub proof fn lemma_listing_stops_at_end(
    before: Seq<Seq<char>>,
    end: Seq<char>,
    after: Seq<Seq<char>>,
)
    requires
        ends_list(end),
    ensures
        listing(before + seq![end] + after) == listing(before + seq![end]),
    decreases before.len(),
{
    let long = before + seq![end] + after;
    let short = before + seq![end];
    if before.len() == 0 {
        assert(long[0] == end);
        assert(short[0] == end);
    } else {
        assert(long[0] == before[0]);
        assert(short[0] == before[0]);
        assert(long.drop_first() == before.drop_first() + seq![end] + after);
        assert(short.drop_first() == before.drop_first() + seq![end]);
        lemma_listing_stops_at_end(before.drop_first(), end, after);
    }
}

impl VarListing {
    /// A listing of which nothing has been received yet.
    pub fn new() -> (listing: Self)
        ensures
            listing@ == (VarListingView { entries: Seq::empty(), done: false }),
    {
        let listing = VarListing { vars: Vec::new(), done: false };
        assert(listing@.entries =~= Seq::empty());
        listing
    }

    /// Whether the listing has ended.
    pub fn is_done(&self) -> (done: bool)
        ensures
            done == self@.done,
    {
        self.done
    }

    /// Takes one more line, and says whether more lines are wanted.
    pub fn accept(&mut self, line: &str) -> (more: bool)
        ensures
            final(self)@ == fed(old(self)@, line@),
            more == !final(self)@.done,
    {
        if self.done {
            return false;
        }
        let chars = chars_of(line);
        if has_prefix(&chars, &chars_of("VAR")) {
            let words = split_whitespace(&chars);
            if words.len() >= 4 {
                let name = string_of(&words[2]);
                let value = value_from(&words);
                proof {
                    assert(pair_views(self.vars@.push((name, value))) == pair_views(
                        self.vars@,
                    ).push((name@, value@)));
                }
                self.vars.push((name, value));
            }
        } else if has_prefix(&chars, &chars_of("END LIST")) {
            self.done = true;
        }
        !self.done
    }

    /// The entries received.
    pub fn into_vars(self) -> (vars: Vec<(String, String)>)
        ensures
            pair_views(vars@) == self@.entries,
    {
        self.vars
    }
}

impl UpsClient {
    /// The variables that the lines of a listing name, with their values:
    /// in the order of the lines, twice where the daemon names one twice,
    /// and none from beyond the line that ends the listing.
    pub fn list_vars(&self, lines: &Vec<String>) -> (vars: Vec<(String, String)>)
        ensures
            pair_views(vars@) == listing(crate::text::string_views(lines@)),
    {
        let ghost texts = crate::text::string_views(lines@);
        let mut received = VarListing::new();
        let mut i: usize = 0;
        assert(texts.skip(0) == texts);
        while i < lines.len()
            invariant
                i <= lines.len(),
                texts == crate::text::string_views(lines@),
                fed_all(received@, texts.skip(i as int)) == fed_all(
                    VarListingView { entries: Seq::empty(), done: false },
                    texts,
                ),
            decreases lines.len() - i,
        {
            assert(texts.skip(i as int).drop_first() == texts.skip(i + 1));
            assert(texts.skip(i as int)[0] == lines@[i as int]@);
            received.accept(lines[i].as_str());
            i += 1;
        }
        proof {
            let start = VarListingView { entries: Seq::empty(), done: false };
            lemma_fed_all_is_listing(start, texts);
            assert(start.entries + listing(texts) == listing(texts));
        }
        received.into_vars()
    }
}

// ---------------------------------------------------------------------------
// Reading the status
// ---------------------------------------------------------------------------

/// The variables that make up a reading, in the order they are asked for.
#[derive(Clone, Copy, Debug, PartialEq, Eq, Structural)]
pub enum StatusVariable {
    Charge,
    Runtime,
    Status,
    Power,
}

/// The name a variable goes by on the wire.
pub open spec fn variable_name(variable: StatusVariable) -> Seq<char> {
    match variable {
        StatusVariable::Charge => "battery.charge"@,
        StatusVariable::Runtime => "battery.runtime"@,
        StatusVariable::Status => "ups.status"@,
        StatusVariable::Power => "output.power"@,
    }
}

impl StatusVariable {
    /// The name the variable goes by on the wire.
    pub fn name(&self) -> (name: &'static str)
        ensures
            name@ == variable_name(*self),
    {
        match self {
            StatusVariable::Charge => "battery.charge",
            StatusVariable::Runtime => "battery.runtime",
            StatusVariable::Status => "ups.status",
            StatusVariable::Power => "output.power",
        }
    }
}

/// What asking for one variable gave.
#[derive(Debug)]
pub struct VarReading {
    /// The value, or why there is none.
    pub value: Result<String, UpsError>,
    /// The value read as a floating-point number, where it is one. Only
    /// the charge and the output power are read this way.
    pub number: Option<Binary64>,
}

/// What asking for one variable gave.
pub struct VarReadingView {
    pub value: Result<Seq<char>, UpsError>,
    pub number: Option<u64>,
}

impl View for VarReading {
    type V = VarReadingView;

    open spec fn view(&self) -> VarReadingView {
        VarReadingView {
            value: match self.value {
                Ok(text) => Ok(text@),
                Err(e) => Err(e),
            },
            number: optional_bits(self.number),
        }
    }
}

/// A reading as it is being put together.
pub struct StatusQuery {
    next: Option<StatusVariable>,
    battery_charge: Binary64,
    battery_runtime: u64,
    ups_status: String,
    output_power: Option<Binary64>,
}

/// What a query holds.
pub struct StatusQueryView {
    /// The variable to ask for next; `None` once the reading is complete.
    pub next: Option<StatusVariable>,
    pub battery_charge: u64,
    pub battery_runtime: u64,
    pub ups_status: Seq<char>,
    pub output_power: Option<u64>,
}

impl View for StatusQuery {
    type V = StatusQueryView;

    closed spec fn view(&self) -> StatusQueryView {
        StatusQueryView {
            next: self.next,
            battery_charge: self.battery_charge.bits,
            battery_runtime: self.battery_runtime,
            ups_status: self.ups_status@,
            output_power: optional_bits(self.output_power),
        }
    }
}

/// A query that has asked for nothing yet.
pub open spec fn fresh_query() -> StatusQueryView {
    StatusQueryView {
        next: Some(StatusVariable::Charge),
        battery_charge: 0,
        battery_runtime: 0,
        ups_status: Seq::empty(),
        output_power: None,
    }
}

/// The number that a text gives where none can be read from it: zero.
pub open spec fn number_or_zero(number: Option<u64>) -> u64 {
    match number {
        Some(bits) => bits,
        None => 0,
    }
}

/// The runtime that a text gives: the decimal number it writes, or zero.
pub open spec fn runtime_of(text: Seq<char>) -> u64 {
    match parse_u64(text) {
        Some(seconds) => seconds,
        None => 0,
    }
}

/// The query after the answer for the variable it asked for.
///
/// The charge, the runtime and the status must each be had: without one
/// the reading fails with the error that came. A charge or a runtime that
/// is no number counts as zero. The output power may be missing, for
/// whatever reason, or be no number: the reading then has none.
pub open spec fn recorded(query: StatusQueryView, reading: VarReadingView) -> Result<
    StatusQueryView,
    UpsError,
> {
    match query.next {
        None => Ok(query),
        Some(StatusVariable::Power) => Ok(
            StatusQueryView {
                next: None,
                output_power: if reading.value is Ok {
                    reading.number
                } else {
                    None
                },
                ..query
            },
        ),
        Some(variable) => match reading.value {
            Err(e) => Err(e),
            Ok(text) => Ok(
                match variable {
                    StatusVariable::Charge => StatusQueryView {
                        next: Some(StatusVariable::Runtime),
                        battery_charge: number_or_zero(reading.number),
                        ..query
                    },
                    StatusVariable::Runtime => StatusQueryView {
                        next: Some(StatusVariable::Status),
                        battery_runtime: runtime_of(text),
                        ..query
                    },
                    _ => StatusQueryView {
                        next: Some(StatusVariable::Power),
                        ups_status: text,
                        ..query
                    },
                },
            ),
        },
    }
}

/// The reading that a complete query holds.
pub open spec fn status_of(query: StatusQueryView) -> UpsStatusView {
    UpsStatusView {
        battery_charge: query.battery_charge,
        battery_runtime: query.battery_runtime,
        ups_status: query.ups_status,
        on_battery: on_battery_of(query.ups_status),
        output_power: query.output_power,
    }
}

/// The reading that the four answers give, or the error of the first of
/// the three required answers that failed.
pub open spec fn status_from(
    charge: VarReadingView,
    runtime: VarReadingView,
    status: VarReadingView,
    power: VarReadingView,
) -> Result<UpsStatusView, UpsError> {
    match charge.value {
        Err(e) => Err(e),
        Ok(_) => match runtime.value {
            Err(e) => Err(e),
            Ok(runtime_text) => match status.value {
                Err(e) => Err(e),
                Ok(status_text) => Ok(
                    UpsStatusView {
                        battery_charge: number_or_zero(charge.number),
                        battery_runtime: runtime_of(runtime_text),
                        ups_status: status_text,
                        on_battery: on_battery_of(status_text),
                        output_power: if power.value is Ok {
                            power.number
                        } else {
                            None
                        },
                    },
                ),
            },
        },
    }
}

impl StatusQuery {
    /// A query that has asked for nothing yet.
    pub fn new() -> (query: Self)
        ensures
            query@ == fresh_query(),
    {
        let query = StatusQuery {
            next: Some(StatusVariable::Charge),
            battery_charge: Binary64::zero(),
            battery_runtime: 0,
            ups_status: String::new(),
            output_power: None,
        };
        assert(query@.ups_status =~= Seq::empty());
        query
    }

    /// The variable to ask for next; `None` once the reading is complete.
    pub fn next_variable(&self) -> (next: Option<StatusVariable>)
        ensures
            next == self@.next,
    {
        self.next
    }

    /// Takes the answer for the variable asked for. On an error nothing
    /// changes and the reading is to be given up.
    pub fn record(&mut self, reading: VarReading) -> (outcome: Result<(), UpsError>)
        ensures
            match recorded(old(self)@, reading@) {
                Ok(query) => outcome is Ok && final(self)@ == query,
                Err(e) => outcome == Err::<(), UpsError>(e) && final(self)@ == old(self)@,
            },
    {
        let variable = match self.next {
            Some(variable) => variable,
            None => {
                return Ok(());
            },
        };
        match variable {
            StatusVariable::Power => {
                self.output_power = match reading.value {
                    Ok(_) => reading.number,
                    Err(_) => None,
                };
                self.next = None;
            },
            _ => {
                let text = match reading.value {
                    Ok(text) => text,
                    Err(e) => {
                        return Err(e);
                    },
                };
                match variable {
                    StatusVariable::Charge => {
                        self.battery_charge = match reading.number {
                            Some(number) => number,
                            None => Binary64::zero(),
                        };
                        self.next = Some(StatusVariable::Runtime);
                    },
                    StatusVariable::Runtime => {
                        self.battery_runtime = match parse_u64_of(&chars_of(text.as_str())) {
                            Some(seconds) => seconds,
                            None => 0,
                        };
                        self.next = Some(StatusVariable::Status);
                    },
                    _ => {
                        self.ups_status = text;
                        self.next = Some(StatusVariable::Power);
                    },
                }
            },
        }
        Ok(())
    }

    /// The reading, once it is complete.
    pub fn finish(self) -> (status: Option<UpsStatus>)
        ensures
            match self@.next {
                None => status is Some && status->0@ == status_of(self@),
                Some(_) => status is None,
            },
    {
        if self.next.is_some() {
            return None;
        }
        let on_battery = is_on_battery(self.ups_status.as_str());
        Some(
            UpsStatus {
                battery_charge: self.battery_charge,
                battery_runtime: self.battery_runtime,
                ups_status: self.ups_status,
                on_battery,
                output_power: self.output_power,
            },
        )
    }
}

impl UpsClient {
    /// Starts reading the status: the query tells which variable to ask
    /// for, takes each answer and ends up holding the reading.
    pub fn begin_status(&self) -> (query: StatusQuery)
        ensures
            query@ == fresh_query(),
    {
        StatusQuery::new()
    }

    /// The reading that the answers for the charge, the runtime, the status
    /// and the output power give, in this order.
    pub fn get_status(
        &self,
        charge: VarReading,
        runtime: VarReading,
        status: VarReading,
        power: VarReading,
    ) -> (reading: Result<UpsStatus, UpsError>)
        ensures
            match status_from(charge@, runtime@, status@, power@) {
                Ok(view) => reading is Ok && reading->Ok_0@ == view,
                Err(e) => reading == Err::<UpsStatus, UpsError>(e),
            },
    {
        let mut query = self.begin_status();
        match query.record(charge) {
            Err(e) => {
                return Err(e);
            },
            Ok(_) => {},
        }
        match query.record(runtime) {
            Err(e) => {
                return Err(e);
            },
            Ok(_) => {},
        }
        match query.record(status) {
            Err(e) => {
                return Err(e);
            },
            Ok(_) => {},
        }
        match query.record(power) {
            Err(e) => {
                return Err(e);
            },
            Ok(_) => {},
        }
        match query.finish() {
            Some(reading) => Ok(reading),
            None => Err(UpsError::Protocol(ProtocolFault::Malformed)),
        }
    }
}

} // verus!
