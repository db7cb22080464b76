//! The latest reading as a published record, and its exposition over HTTP.
//!
//! The server here is the part of the HTTP front end that decides: which
//! answer a request for `/metrics` gets, and what the body says. Listening,
//! routing and serialising to JSON are the caller's.

use crate::binary64::Binary64;
use crate::clock::unix_timestamp;
use crate::config::{Config, MetricsConfig, MetricsConfigView};
use crate::text::{chars_of, decimal, push_decimal, push_signed_decimal, signed_decimal};
use crate::ups::{optional_bits, UpsStatus, UpsStatusView};
use vstd::prelude::*;
use vstd::string::StringExecFns;

verus! {

/// The published record: one reading, the device it came from and the time
/// it was captured.
#[derive(Debug)]
pub struct Metrics {
    pub ups_name: String,
    pub ups_host: String,
    pub battery_charge_percent: Binary64,
    pub battery_runtime_seconds: u64,
    pub ups_status: String,
    pub on_battery: bool,
    /// Unix time of capture, in seconds.
    pub last_update: i64,
    pub on_battery_duration_seconds: Option<u64>,
    pub output_power_watts: Option<Binary64>,
}

/// What a record says; the two floating-point numbers are given by their bit patterns.
pub struct MetricsView {
    pub ups_name: Seq<char>,
    pub ups_host: Seq<char>,
    pub battery_charge_percent: u64,
    pub battery_runtime_seconds: u64,
    pub ups_status: Seq<char>,
    pub on_battery: bool,
    pub last_update: i64,
    pub on_battery_duration_seconds: Option<u64>,
    pub output_power_watts: Option<u64>,
}

impl View for Metrics {
    type V = MetricsView;

    open spec fn view(&self) -> MetricsView {
        MetricsView {
            ups_name: self.ups_name@,
            ups_host: self.ups_host@,
            battery_charge_percent: self.battery_charge_percent.bits,
            battery_runtime_seconds: self.battery_runtime_seconds,
            ups_status: self.ups_status@,
            on_battery: self.on_battery,
            last_update: self.last_update,
            on_battery_duration_seconds: self.on_battery_duration_seconds,
            output_power_watts: optional_bits(self.output_power_watts),
        }
    }
}

impl Clone for Metrics {
    fn clone(&self) -> (r: Self)
        ensures
            r@ == self@,
    {
        Metrics {
            ups_name: self.ups_name.clone(),
            ups_host: self.ups_host.clone(),
            battery_charge_percent: self.battery_charge_percent,
            battery_runtime_seconds: self.battery_runtime_seconds,
            ups_status: self.ups_status.clone(),
            on_battery: self.on_battery,
            last_update: self.last_update,
            on_battery_duration_seconds: self.on_battery_duration_seconds,
            output_power_watts: self.output_power_watts,
        }
    }
}

/// The record that a reading becomes when it is published.
pub open spec fn record_of(
    ups_name: Seq<char>,
    ups_host: Seq<char>,
    status: UpsStatusView,
    on_battery_duration: Option<u64>,
    last_update: i64,
) -> MetricsView {
    MetricsView {
        ups_name,
        ups_host,
        battery_charge_percent: status.battery_charge,
        battery_runtime_seconds: status.battery_runtime,
        ups_status: status.ups_status,
        on_battery: status.on_battery,
        last_update,
        on_battery_duration_seconds: on_battery_duration,
        output_power_watts: status.output_power,
    }
}

impl Metrics {
    /// The record for `status`, read from the device `ups_name` at
    /// `ups_host` and captured at `last_update`.
    pub fn from_status(
        ups_name: String,
        ups_host: String,
        status: UpsStatus,
        on_battery_duration: Option<u64>,
        last_update: i64,
    ) -> (metrics: Self)
        ensures
            metrics@ == record_of(ups_name@, ups_host@, status@, on_battery_duration, last_update),
    {
        Metrics {
            ups_name,
            ups_host,
            battery_charge_percent: status.battery_charge,
            battery_runtime_seconds: status.battery_runtime,
            ups_status: status.ups_status,
            on_battery: status.on_battery,
            last_update,
            on_battery_duration_seconds: on_battery_duration,
            output_power_watts: status.output_power,
        }
    }
}

// ---------------------------------------------------------------------------
// Label values
// ---------------------------------------------------------------------------

/// What stands for `c` inside a label value: a backslash before a double
/// quote or a backslash, `\n` for a line feed, and `c` itself otherwise.
pub open spec fn escape_char(c: char) -> Seq<char> {
    if c == '"' {
        seq!['\\', '"']
    } else if c == '\\' {
        seq!['\\', '\\']
    } else if c == '\n' {
        seq!['\\', 'n']
    } else {
        seq![c]
    }
}

/// `s` with each character replaced by what stands for it in a label value.
pub open spec fn escaped(s: Seq<char>) -> Seq<char>
    decreases s.len(),
{
    if s.len() == 0 {
        Seq::empty()
    } else {
        escaped(s.drop_last()) + escape_char(s.last())
    }
}

/// Appends `value`, escaped for a label value, to `out`.
pub fn push_escaped(out: &mut String, value: &str)
    ensures
        final(out)@ == old(out)@ + escaped(value@),
{
    let chars = chars_of(value);
    let mut i: usize = 0;
    assert(chars@.take(0) == Seq::<char>::empty());
    while i < chars.len()
        invariant
            i <= chars.len(),
            chars@ == value@,
            out@ == old(out)@ + escaped(chars@.take(i as int)),
        decreases chars.len() - i,
    {
        let c = chars[i];
        if c == '"' {
            out.push('\\');
            out.push('"');
        } else if c == '\\' {
            out.push('\\');
            out.push('\\');
        } else if c == '\n' {
            out.push('\\');
            out.push('n');
        } else {
            out.push(c);
        }
        i += 1;
        proof {
            let upto = chars@.take(i as int);
            assert(upto.drop_last() == chars@.take(i - 1));
            assert(upto.last() == c);
            assert(out@ == old(out)@ + escaped(upto));
        }
    }
    assert(chars@.take(chars.len() as int) == chars@);
}

/// `value` escaped for use as a label value.
pub fn escape_label(value: &str) -> (escaped_value: String)
    ensures
        escaped_value@ == escaped(value@),
{
    let mut out = String::new();
    push_escaped(&mut out, value);
    out
}

// ---------------------------------------------------------------------------
// OpenMetrics text
// ---------------------------------------------------------------------------

/// A metric's name followed by the two labels every sample carries, up to
/// but without the closing brace.
pub open spec fn sample_head(metric: Seq<char>, ups_name: Seq<char>, ups_host: Seq<char>) -> Seq<
    char,
> {
    metric + "{ups_name=\""@ + escaped(ups_name) + "\",ups_host=\""@ + escaped(ups_host) + "\""@
}

/// One sample line of a gauge.
pub open spec fn gauge_sample(
    metric: Seq<char>,
    ups_name: Seq<char>,
    ups_host: Seq<char>,
    value: Seq<char>,
) -> Seq<char> {
    sample_head(metric, ups_name, ups_host) + "} "@ + value + "\n"@
}

/// The charge as a ratio. `charge_ratio` is the number, already written out.
pub open spec fn charge_block(m: MetricsView, charge_ratio: Seq<char>) -> Seq<char> {
    "# TYPE ups_battery_charge_ratio gauge\n"@ + "# UNIT ups_battery_charge_ratio ratio\n"@
        + "# HELP ups_battery_charge_ratio Battery charge level as a ratio (0.0 to 1.0).\n"@
        + gauge_sample("ups_battery_charge_ratio"@, m.ups_name, m.ups_host, charge_ratio)
}

/// The runtime estimate.
pub open spec fn runtime_block(m: MetricsView) -> Seq<char> {
    "# TYPE ups_battery_runtime_seconds gauge\n"@ + "# UNIT ups_battery_runtime_seconds seconds\n"@
        + "# HELP ups_battery_runtime_seconds Estimated battery runtime in seconds.\n"@
        + gauge_sample(
        "ups_battery_runtime_seconds"@,
        m.ups_name,
        m.ups_host,
        decimal(m.battery_runtime_seconds as nat),
    )
}

/// Whether the device runs on battery: 1 or 0.
pub open spec fn on_battery_block(m: MetricsView) -> Seq<char> {
    "# TYPE ups_on_battery gauge\n"@
        + "# HELP ups_on_battery Whether UPS is running on battery (1 = on battery, 0 = on line power).\n"@
        + gauge_sample(
        "ups_on_battery"@,
        m.ups_name,
        m.ups_host,
        if m.on_battery {
            "1"@
        } else {
            "0"@
        },
    )
}

/// The time spent on battery. The block is there only while the device is
/// on battery and the time is known; it is empty otherwise.
pub open spec fn duration_block(m: MetricsView) -> Seq<char> {
    if m.on_battery && m.on_battery_duration_seconds is Some {
        "# TYPE ups_on_battery_duration_seconds gauge\n"@
            + "# UNIT ups_on_battery_duration_seconds seconds\n"@
            + "# HELP ups_on_battery_duration_seconds Duration in seconds that UPS has been on battery.\n"@
            + gauge_sample(
            "ups_on_battery_duration_seconds"@,
            m.ups_name,
            m.ups_host,
            decimal(m.on_battery_duration_seconds->0 as nat),
        )
    } else {
        Seq::empty()
    }
}

/// The output power; empty where it is not known. `output_power` is the
/// number, already written out.
pub open spec fn power_block(m: MetricsView, output_power: Seq<char>) -> Seq<char> {
    match m.output_power_watts {
        Some(_) => "# TYPE ups_output_power_watts gauge\n"@
            + "# UNIT ups_output_power_watts watts\n"@
            + "# HELP ups_output_power_watts Current UPS output power in watts.\n"@ + gauge_sample(
            "ups_output_power_watts"@,
            m.ups_name,
            m.ups_host,
            output_power,
        ),
        None => Seq::empty(),
    }
}

/// The time of capture.
pub open spec fn last_update_block(m: MetricsView) -> Seq<char> {
    "# TYPE ups_last_update_timestamp_seconds gauge\n"@
        + "# UNIT ups_last_update_timestamp_seconds seconds\n"@
        + "# HELP ups_last_update_timestamp_seconds Unix timestamp of last successful UPS status update.\n"@
        + gauge_sample(
        "ups_last_update_timestamp_seconds"@,
        m.ups_name,
        m.ups_host,
        signed_decimal(m.last_update as int),
    )
}

/// The raw status, carried as a label of an info metric whose value is 1.
pub open spec fn status_block(m: MetricsView) -> Seq<char> {
    "# TYPE ups_status_info info\n"@ + "# HELP ups_status_info UPS status information.\n"@
        + sample_head("ups_status_info"@, m.ups_name, m.ups_host) + ",status=\""@ + escaped(
        m.ups_status,
    ) + "\"} 1\n"@
}

/// The whole exposition: the blocks in their fixed order, then the end
/// marker.
pub open spec fn openmetrics(m: MetricsView, charge_ratio: Seq<char>, output_power: Seq<char>) -> Seq<
    char,
> {
    charge_block(m, charge_ratio) + runtime_block(m) + on_battery_block(m) + duration_block(m)
        + power_block(m, output_power) + last_update_block(m) + status_block(m) + "# EOF\n"@
}

fn push_sample_head(out: &mut String, metric: &str, metrics: &Metrics)
    ensures
        final(out)@ == old(out)@ + sample_head(metric@, metrics.ups_name@, metrics.ups_host@),
{
    out.append(metric);
    out.append("{ups_name=\"");
    push_escaped(out, metrics.ups_name.as_str());
    out.append("\",ups_host=\"");
    push_escaped(out, metrics.ups_host.as_str());
    out.append("\"");
    assert(out@ =~= old(out)@ + sample_head(metric@, metrics.ups_name@, metrics.ups_host@));
}

fn push_charge_block(out: &mut String, metrics: &Metrics, charge_ratio: &str)
    ensures
        final(out)@ == old(out)@ + charge_block(metrics@, charge_ratio@),
{
    out.append("# TYPE ups_battery_charge_ratio gauge\n");
    out.append("# UNIT ups_battery_charge_ratio ratio\n");
    out.append("# HELP ups_battery_charge_ratio Battery charge level as a ratio (0.0 to 1.0).\n");
    push_sample_head(out, "ups_battery_charge_ratio", metrics);
    out.append("} ");
    out.append(charge_ratio);
    out.append("\n");
    assert(out@ =~= old(out)@ + charge_block(metrics@, charge_ratio@));
}

fn push_runtime_block(out: &mut String, metrics: &Metrics)
    ensures
        final(out)@ == old(out)@ + runtime_block(metrics@),
{
    out.append("# TYPE ups_battery_runtime_seconds gauge\n");
    out.append("# UNIT ups_battery_runtime_seconds seconds\n");
    out.append("# HELP ups_battery_runtime_seconds Estimated battery runtime in seconds.\n");
    push_sample_head(out, "ups_battery_runtime_seconds", metrics);
    out.append("} ");
    push_decimal(out, metrics.battery_runtime_seconds);
    out.append("\n");
    assert(out@ =~= old(out)@ + runtime_block(metrics@));
}

fn push_on_battery_block(out: &mut String, metrics: &Metrics)
    ensures
        final(out)@ == old(out)@ + on_battery_block(metrics@),
{
    out.append("# TYPE ups_on_battery gauge\n");
    out.append(
        "# HELP ups_on_battery Whether UPS is running on battery (1 = on battery, 0 = on line power).\n",
    );
    push_sample_head(out, "ups_on_battery", metrics);
    out.append("} ");
    if metrics.on_battery {
        out.append("1");
    } else {
        out.append("0");
    }
    out.append("\n");
    assert(out@ =~= old(out)@ + on_battery_block(metrics@));
}

fn push_duration_block(out: &mut String, metrics: &Metrics)
    ensures
        final(out)@ == old(out)@ + duration_block(metrics@),
{
    if !metrics.on_battery {
        assert(out@ =~= old(out)@ + duration_block(metrics@));
        return;
    }
    if let Some(duration) = metrics.on_battery_duration_seconds {
        out.append("# TYPE ups_on_battery_duration_seconds gauge\n");
        out.append("# UNIT ups_on_battery_duration_seconds seconds\n");
        out.append(
            "# HELP ups_on_battery_duration_seconds Duration in seconds that UPS has been on battery.\n",
        );
        push_sample_head(out, "ups_on_battery_duration_seconds", metrics);
        out.append("} ");
        push_decimal(out, duration);
        out.append("\n");
    }
    assert(out@ =~= old(out)@ + duration_block(metrics@));
}

fn push_power_block(out: &mut String, metrics: &Metrics, output_power: &str)
    ensures
        final(out)@ == old(out)@ + power_block(metrics@, output_power@),
{
    if metrics.output_power_watts.is_some() {
        out.append("# TYPE ups_output_power_watts gauge\n");
        out.append("# UNIT ups_output_power_watts watts\n");
        out.append("# HELP ups_output_power_watts Current UPS output power in watts.\n");
        push_sample_head(out, "ups_output_power_watts", metrics);
        out.append("} ");
        out.append(output_power);
        out.append("\n");
    }
    assert(out@ =~= old(out)@ + power_block(metrics@, output_power@));
}

fn push_last_update_block(out: &mut String, metrics: &Metrics)
    ensures
        final(out)@ == old(out)@ + last_update_block(metrics@),
{
    out.append("# TYPE ups_last_update_timestamp_seconds gauge\n");
    out.append("# UNIT ups_last_update_timestamp_seconds seconds\n");
    out.append(
        "# HELP ups_last_update_timestamp_seconds Unix timestamp of last successful UPS status update.\n",
    );
    push_sample_head(out, "ups_last_update_timestamp_seconds", metrics);
    out.append("} ");
    push_signed_decimal(out, metrics.last_update);
    out.append("\n");
    assert(out@ =~= old(out)@ + last_update_block(metrics@));
}

fn push_status_block(out: &mut String, metrics: &Metrics)
    ensures
        final(out)@ == old(out)@ + status_block(metrics@),
{
    out.append("# TYPE ups_status_info info\n");
    out.append("# HELP ups_status_info UPS status information.\n");
    push_sample_head(out, "ups_status_info", metrics);
    out.append(",status=\"");
    push_escaped(out, metrics.ups_status.as_str());
    out.append("\"} 1\n");
    assert(out@ =~= old(out)@ + status_block(metrics@));
}

/// The record as OpenMetrics text.
///
/// The two floating-point samples arrive written out: `charge_ratio` is the
/// charge divided by 100, and `output_power` the output power in watts. The
/// latter is read only where the record holds an output power.
pub fn format_openmetrics(metrics: &Metrics, charge_ratio: &str, output_power: &str) -> (text:
    String)
    ensures
        text@ == openmetrics(metrics@, charge_ratio@, output_power@),
{
    let mut out = String::new();
    push_charge_block(&mut out, metrics, charge_ratio);
    push_runtime_block(&mut out, metrics);
    push_on_battery_block(&mut out, metrics);
    push_duration_block(&mut out, metrics);
    push_power_block(&mut out, metrics, output_power);
    push_last_update_block(&mut out, metrics);
    push_status_block(&mut out, metrics);
    out.append("# EOF\n");
    assert(out@ =~= openmetrics(metrics@, charge_ratio@, output_power@));
    out
}

// ---------------------------------------------------------------------------
// Answers
// ---------------------------------------------------------------------------

/// The JSON answer: a status word, the time of the answer and the record.
#[derive(Debug)]
pub struct JsonMetricsResponse {
    pub status: String,
    pub timestamp: i64,
    pub metrics: Metrics,
}

/// What a JSON answer says.
pub struct JsonMetricsResponseView {
    pub status: Seq<char>,
    pub timestamp: i64,
    pub metrics: MetricsView,
}

impl View for JsonMetricsResponse {
    type V = JsonMetricsResponseView;

    open spec fn view(&self) -> JsonMetricsResponseView {
        JsonMetricsResponseView {
            status: self.status@,
            timestamp: self.timestamp,
            metrics: self.metrics@,
        }
    }
}

/// What a request for the metrics is answered with.
#[derive(Debug)]
pub enum MetricsReply {
    /// Nothing has been published yet.
    Unavailable,
    /// A bearer token is configured and the request did not present it.
    Unauthorized,
    /// The record, to be serialised as JSON.
    Json(JsonMetricsResponse),
    /// The record as OpenMetrics text.
    OpenMetrics(String),
}

/// What an answer says.
pub enum MetricsReplyView {
    Unavailable,
    Unauthorized,
    Json(JsonMetricsResponseView),
    OpenMetrics(Seq<char>),
}

impl View for MetricsReply {
    type V = MetricsReplyView;

    open spec fn view(&self) -> MetricsReplyView {
        match self {
            MetricsReply::Unavailable => MetricsReplyView::Unavailable,
            MetricsReply::Unauthorized => MetricsReplyView::Unauthorized,
            MetricsReply::Json(json) => MetricsReplyView::Json(json@),
            MetricsReply::OpenMetrics(text) => MetricsReplyView::OpenMetrics(text@),
        }
    }
}

/// The HTTP status of an answer: 503 while nothing is published, 401 for a
/// request that lacks the token, 200 otherwise.
pub open spec fn status_code_of(reply: MetricsReplyView) -> u16 {
    match reply {
        MetricsReplyView::Unavailable => 503,
        MetricsReplyView::Unauthorized => 401,
        _ => 200,
    }
}

impl MetricsReply {
    /// The HTTP status to answer with.
    pub fn status_code(&self) -> (code: u16)
        ensures
            code == status_code_of(self@),
    {
        match self {
            MetricsReply::Unavailable => 503,
            MetricsReply::Unauthorized => 401,
            _ => 200,
        }
    }

    /// The media type of the body: the OpenMetrics text type for the text
    /// exposition, JSON for the JSON answer, plain text for the two refusals.
    pub fn content_type(&self) -> (media_type: &'static str)
        ensures
            media_type@ == (match self@ {
                MetricsReplyView::OpenMetrics(_) =>
                    "application/openmetrics-text; version=1.0.0; charset=utf-8"@,
                MetricsReplyView::Json(_) => "application/json"@,
                _ => "text/plain; charset=utf-8"@,
            }),
    {
        match self {
            MetricsReply::OpenMetrics(_) =>
                "application/openmetrics-text; version=1.0.0; charset=utf-8",
            MetricsReply::Json(_) => "application/json",
            _ => "text/plain; charset=utf-8",
        }
    }

    /// The body of a refusal; empty for the two answers that carry the record.
    pub fn refusal(&self) -> (body: &'static str)
        ensures
            body@ == (match self@ {
                MetricsReplyView::Unavailable => "No metrics available"@,
                MetricsReplyView::Unauthorized => "Unauthorized"@,
                _ => ""@,
            }),
    {
        match self {
            MetricsReply::Unavailable => "No metrics available",
            MetricsReply::Unauthorized => "Unauthorized",
            _ => "",
        }
    }
}

/// The view of an optional string slice.
pub open spec fn optional_str(o: Option<&str>) -> Option<Seq<char>> {
    match o {
        Some(s) => Some(s@),
        None => None,
    }
}

/// A request may read the metrics where no token is configured, or where its
/// `Authorization` header is exactly `Bearer `, then the token.
pub open spec fn authorized(token: Option<Seq<char>>, authorization: Option<Seq<char>>) -> bool {
    match token {
        None => true,
        Some(t) => authorization == Some("Bearer "@ + t),
    }
}

/// The JSON answer is given where the configured format is `json`.
pub open spec fn wants_json(format: Option<Seq<char>>) -> bool {
    format == Some("json"@)
}

/// The answer to a request for the metrics, made at `now`.
pub open spec fn reply_for(
    server: MetricsServerView,
    authorization: Option<Seq<char>>,
    now: i64,
    charge_ratio: Seq<char>,
    output_power: Seq<char>,
) -> MetricsReplyView {
    match server.record {
        None => MetricsReplyView::Unavailable,
        Some(record) => if !authorized(server.config.bearer_token, authorization) {
            MetricsReplyView::Unauthorized
        } else if wants_json(server.config.format) {
            MetricsReplyView::Json(
                JsonMetricsResponseView { status: "ok"@, timestamp: now, metrics: record },
            )
        } else {
            MetricsReplyView::OpenMetrics(openmetrics(record, charge_ratio, output_power))
        },
    }
}

/// The time an answer carries; 0 for the answers that carry none.
pub open spec fn timestamp_of(reply: MetricsReplyView) -> i64 {
    match reply {
        MetricsReplyView::Json(json) => json.timestamp,
        _ => 0,
    }
}

/// Without a configured token no request is refused for want of one. With a
/// token, and once a record is published, a request is answered with the
/// record exactly when its header is `Bearer `, then the token.
pub proof fn lemma_bearer_auth(
    server: MetricsServerView,
    authorization: Option<Seq<char>>,
    now: i64,
    charge_ratio: Seq<char>,
    output_power: Seq<char>,
)
    ensures
        server.config.bearer_token is None ==> reply_for(
            server,
            authorization,
            now,
            charge_ratio,
            output_power,
        ) != MetricsReplyView::Unauthorized,
        server.config.bearer_token is Some && server.record is Some ==> (reply_for(
            server,
            authorization,
            now,
            charge_ratio,
            output_power,
        ) != MetricsReplyView::Unauthorized <==> authorization == Some(
            "Bearer "@ + server.config.bearer_token->0,
        )),
        server.record is None ==> reply_for(server, authorization, now, charge_ratio, output_power)
            == MetricsReplyView::Unavailable,
{
}

/// A block whose value is not known adds nothing to the exposition, and
/// neither does the time on battery while the device is not on battery:
/// without an output power and without that time the text is the five
/// remaining blocks and the end marker.
pub proof fn lemma_unknown_blocks_omitted(
    m: MetricsView,
    charge_ratio: Seq<char>,
    output_power: Seq<char>,
)
    ensures
        m.output_power_watts is None ==> power_block(m, output_power) == Seq::<char>::empty(),
        m.on_battery_duration_seconds is None ==> duration_block(m) == Seq::<char>::empty(),
        !m.on_battery ==> duration_block(m) == Seq::<char>::empty(),
        m.output_power_watts is None && (!m.on_battery || m.on_battery_duration_seconds is None)
            ==> openmetrics(
            m,
            charge_ratio,
            output_power,
        ) == charge_block(m, charge_ratio) + runtime_block(m) + on_battery_block(m)
            + last_update_block(m) + status_block(m) + "# EOF\n"@,
        m.output_power_watts is None ==> openmetrics(m, charge_ratio, output_power) == charge_block(
            m,
            charge_ratio,
        ) + runtime_block(m) + on_battery_block(m) + duration_block(m) + last_update_block(m)
            + status_block(m) + "# EOF\n"@,
        !m.on_battery || m.on_battery_duration_seconds is None ==> openmetrics(
            m,
            charge_ratio,
            output_power,
        ) == charge_block(m, charge_ratio) + runtime_block(m) + on_battery_block(m) + power_block(
            m,
            output_power,
        ) + last_update_block(m) + status_block(m) + "# EOF\n"@,
{
    let head = charge_block(m, charge_ratio) + runtime_block(m) + on_battery_block(m);
    assert(head + Seq::<char>::empty() == head);
    let with_duration = head + duration_block(m);
    assert(with_duration + Seq::<char>::empty() == with_duration);
}

// ---------------------------------------------------------------------------
// The store behind the endpoint
// ---------------------------------------------------------------------------

/// The endpoint's configuration and the one record it serves.
pub struct MetricsServer {
    config: MetricsConfig,
    metrics: Option<Metrics>,
}

/// What a server holds.
pub struct MetricsServerView {
    pub config: MetricsConfigView,
    /// The published record; `None` until the first reading is published.
    pub record: Option<MetricsView>,
}

impl View for MetricsServer {
    type V = MetricsServerView;

    closed spec fn view(&self) -> MetricsServerView {
        MetricsServerView {
            config: self.config@,
            record: match self.metrics {
                Some(m) => Some(m@),
                None => None,
            },
        }
    }
}

/// The format served where none is configured.
pub open spec fn default_format() -> Seq<char> {
    "openmetrics"@
}

/// The address the endpoint listens on: every interface, at `port`.
pub open spec fn bind_address_of(port: u16) -> Seq<char> {
    "0.0.0.0:"@ + decimal(port as nat)
}

impl MetricsServer {
    /// A server with nothing published yet.
    pub fn new(config: MetricsConfig) -> (server: Self)
        ensures
            server@ == (MetricsServerView { config: config@, record: None }),
    {
        MetricsServer { config, metrics: None }
    }

    /// The server that `config` asks for: one where the metrics section is
    /// present and switched on, none otherwise.
    pub fn from_config(config: &Config) -> (server: Option<Self>)
        ensures
            match config@.metrics {
                Some(m) => if m.enabled {
                    server is Some && server->0@ == (MetricsServerView { config: m, record: None })
                } else {
                    server is None
                },
                None => server is None,
            },
    {
        match &config.metrics {
            Some(metrics_config) => {
                if metrics_config.enabled {
                    Some(MetricsServer::new(metrics_config.clone()))
                } else {
                    None
                }
            },
            None => None,
        }
    }

    /// The port to listen on.
    pub fn port(&self) -> (port: u16)
        ensures
            port == self@.config.port,
    {
        self.config.port
    }

    /// The address to listen on.
    pub fn bind_address(&self) -> (address: String)
        ensures
            address@ == bind_address_of(self@.config.port),
    {
        let mut address = "0.0.0.0:".to_owned();
        push_decimal(&mut address, self.config.port as u64);
        address
    }

    /// The configured format, or the default where none is configured.
    pub fn format(&self) -> (format: String)
        ensures
            format@ == (match self@.config.format {
                Some(f) => f,
                None => default_format(),
            }),
    {
        match &self.config.format {
            Some(f) => f.clone(),
            None => "openmetrics".to_owned(),
        }
    }

    /// The published record, if there is one.
    pub fn metrics(&self) -> (record: Option<&Metrics>)
        ensures
            match record {
                Some(m) => self@.record == Some(m@),
                None => self@.record is None,
            },
    {
        self.metrics.as_ref()
    }

    /// Replaces the published record by `metrics`.
    pub fn publish(&mut self, metrics: Metrics)
        ensures
            final(self)@ == (MetricsServerView {
                config: old(self)@.config,
                record: Some(metrics@),
            }),
    {
        self.metrics = Some(metrics);
    }

    /// Publishes `status` as the record, stamped with the wall clock's time.
    /// Whatever the clock says, the record is replaced whole: every field but
    /// the time of capture comes from the arguments.
    pub fn update_metrics(
        &mut self,
        ups_name: String,
        ups_host: String,
        status: UpsStatus,
        on_battery_duration: Option<u64>,
    )
        ensures
            final(self)@.config == old(self)@.config,
            final(self)@.record is Some,
            final(self)@.record->0 == record_of(
                ups_name@,
                ups_host@,
                status@,
                on_battery_duration,
                final(self)@.record->0.last_update,
            ),
    {
        let now = unix_timestamp();
        self.publish(Metrics::from_status(ups_name, ups_host, status, on_battery_duration, now));
    }

    /// Whether `authorization` may read the metrics.
    pub fn is_authorized(&self, authorization: Option<&str>) -> (ok: bool)
        ensures
            ok == authorized(self@.config.bearer_token, optional_str(authorization)),
    {
        match &self.config.bearer_token {
            None => true,
            Some(token) => match authorization {
                None => false,
                Some(header) => {
                    let mut expected = "Bearer ".to_owned();
                    expected.append(token.as_str());
                    header.to_owned() == expected
                },
            },
        }
    }

    /// Whether the configured format is `json`.
    pub fn serves_json(&self) -> (json: bool)
        ensures
            json == wants_json(self@.config.format),
    {
        match &self.config.format {
            Some(f) => *f == "json".to_owned(),
            None => false,
        }
    }

    /// The answer to a request for the metrics that arrives at `now` with
    /// the header value `authorization`.
    ///
    /// `charge_ratio` and `output_power` are the two floating-point samples
    /// of the published record, written out; they are read only for the
    /// text exposition.
    pub fn respond(
        &self,
        authorization: Option<&str>,
        now: i64,
        charge_ratio: &str,
        output_power: &str,
    ) -> (reply: MetricsReply)
        ensures
            reply@ == reply_for(
                self@,
                optional_str(authorization),
                now,
                charge_ratio@,
                output_power@,
            ),
    {
        match &self.metrics {
            None => MetricsReply::Unavailable,
            Some(record) => {
                if !self.is_authorized(authorization) {
                    MetricsReply::Unauthorized
                } else if self.serves_json() {
                    MetricsReply::Json(
                        JsonMetricsResponse {
                            status: "ok".to_owned(),
                            timestamp: now,
                            metrics: record.clone(),
                        },
                    )
                } else {
                    MetricsReply::OpenMetrics(format_openmetrics(record, charge_ratio, output_power))
                }
            },
        }
    }

    /// The answer to a request for the metrics that arrives now. The wall
    /// clock is read for the JSON answer only, which carries its time;
    /// whatever it says, the answer is the one `reply_for` gives for that
    /// time.
    pub fn handle_metrics(
        &self,
        authorization: Option<&str>,
        charge_ratio: &str,
        output_power: &str,
    ) -> (reply: MetricsReply)
        ensures
            reply@ == reply_for(
                self@,
                optional_str(authorization),
                timestamp_of(reply@),
                charge_ratio@,
                output_power@,
            ),
    {
        let answers_json = self.metrics.is_some() && self.is_authorized(authorization)
            && self.serves_json();
        let now: i64 = if answers_json {
            unix_timestamp()
        } else {
            0
        };
        self.respond(authorization, now, charge_ratio, output_power)
    }

    /// The answer to a request for `/health`: always 200 and the body `OK`.
    pub fn handle_health() -> (reply: (u16, &'static str))
        ensures
            reply.0 == 200,
            reply.1@ == "OK"@,
    {
        (200, "OK")
    }
}

} // verus!
