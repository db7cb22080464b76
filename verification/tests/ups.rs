use rabbitnut::binary64::Binary64;
use rabbitnut::ups::{
    is_acknowledged, is_on_battery, AuthStage, ProtocolFault, StatusQuery, StatusVariable,
    UpsClient, UpsError, VarListing, VarReading,
};

fn client() -> UpsClient {
    UpsClient::new("nut.example".to_string(), 3493, "apc".to_string(), None, None)
}

fn client_with_login() -> UpsClient {
    UpsClient::new(
        "10.0.0.2".to_string(),
        3500,
        "apc".to_string(),
        Some("monitor".to_string()),
        Some("s3cret".to_string()),
    )
}

fn number(text: &str) -> Option<Binary64> {
    text.parse::<f64>().ok().map(|f| Binary64::from_bits(f.to_bits()))
}

fn answered(line: &str) -> VarReading {
    let value = UpsClient::get_var(line);
    let number = value.as_ref().ok().and_then(|v| number(v));
    VarReading { value, number }
}

fn lost() -> VarReading {
    VarReading { value: Err(UpsError::Connection), number: None }
}

// What the answer to GET VAR means, written with std's own string functions.
fn reference_get_var(response: &str) -> Result<String, UpsError> {
    let parts: Vec<&str> = response.trim().split_whitespace().collect();
    if parts.len() >= 4 && parts[0] == "VAR" {
        Ok(parts[3..].join(" ").trim_matches('"').to_string())
    } else if response.contains("ERR") {
        Err(UpsError::Protocol(ProtocolFault::ErrorReply))
    } else {
        Err(UpsError::Protocol(ProtocolFault::Malformed))
    }
}

#[test]
fn new_keeps_what_it_is_given() {
    let c = client_with_login();
    assert_eq!(c.host(), "10.0.0.2");
    assert_eq!(c.name(), "apc");
    assert_eq!(c.address(), "10.0.0.2:3500");
    assert_eq!(client().address(), "nut.example:3493");
}

#[test]
fn connect_logs_in_only_with_both_credentials() {
    assert_eq!(client().connect(), None);
    assert_eq!(client_with_login().connect(), Some(AuthStage::Username));
    let only_user =
        UpsClient::new("h".to_string(), 1, "u".to_string(), Some("monitor".to_string()), None);
    assert_eq!(only_user.connect(), None);
    let only_password =
        UpsClient::new("h".to_string(), 1, "u".to_string(), None, Some("pw".to_string()));
    assert_eq!(only_password.connect(), None);
}

#[test]
fn auth_commands() {
    let c = client_with_login();
    assert_eq!(c.auth_command(AuthStage::Username), Some("USERNAME monitor\n".to_string()));
    assert_eq!(c.auth_command(AuthStage::Password), Some("PASSWORD s3cret\n".to_string()));
    assert_eq!(client().auth_command(AuthStage::Username), None);
    assert_eq!(client().auth_command(AuthStage::Password), None);
}

#[test]
fn authenticate_walks_both_stages() {
    assert_eq!(UpsClient::authenticate(AuthStage::Username, "OK\n"), Ok(Some(AuthStage::Password)));
    assert_eq!(UpsClient::authenticate(AuthStage::Password, "OK\n"), Ok(None));
}

#[test]
fn authenticate_fails_at_the_stage_that_is_refused() {
    assert_eq!(
        UpsClient::authenticate(AuthStage::Username, "ERR ACCESS-DENIED\n"),
        Err(UpsError::Authentication(AuthStage::Username))
    );
    assert_eq!(
        UpsClient::authenticate(AuthStage::Password, "ERR INVALID-PASSWORD\n"),
        Err(UpsError::Authentication(AuthStage::Password))
    );
    assert_eq!(
        UpsClient::authenticate(AuthStage::Password, ""),
        Err(UpsError::Authentication(AuthStage::Password))
    );
}

#[test]
fn acknowledgement_ignores_case() {
    for response in [
        "OK", "ok", "Ok", "oK", "OK\n", "  ok  ", "TOKEN", "token", "O K", "KO", "O", "", "0K",
        "\u{212a}O", "O\u{212a}", "ERR ACCESS-DENIED", "BROKEN",
    ] {
        assert_eq!(
            is_acknowledged(response),
            response.to_uppercase().contains("OK"),
            "{:?}",
            response
        );
    }
}

#[test]
fn get_var_command_names_device_and_variable() {
    assert_eq!(client().get_var_command("battery.charge"), "GET VAR apc battery.charge\n");
    assert_eq!(client().list_vars_command(), "LIST VAR apc\n");
}

#[test]
fn get_var_reads_the_value() {
    assert_eq!(UpsClient::get_var("VAR apc battery.charge \"100\"\n"), Ok("100".to_string()));
    assert_eq!(UpsClient::get_var("VAR apc ups.status \"OL CHRG\"\n"), Ok("OL CHRG".to_string()));
    assert_eq!(
        UpsClient::get_var("VAR apc ups.model \"Back-UPS   ES 700\"\n"),
        Ok("Back-UPS ES 700".to_string())
    );
    assert_eq!(UpsClient::get_var("VAR apc x \"\"\n"), Ok("".to_string()));
    assert_eq!(UpsClient::get_var("  VAR apc x 5\n"), Ok("5".to_string()));
    assert_eq!(UpsClient::get_var("VAR apc x \"ERR\"\n"), Ok("ERR".to_string()));
}

#[test]
fn get_var_tells_error_replies_from_malformed_lines() {
    let error_reply = Err(UpsError::Protocol(ProtocolFault::ErrorReply));
    let malformed = Err(UpsError::Protocol(ProtocolFault::Malformed));
    assert_eq!(UpsClient::get_var("ERR UNKNOWN-UPS\n"), error_reply);
    assert_eq!(UpsClient::get_var("ERR VAR-NOT-SUPPORTED\n"), error_reply);
    assert_eq!(UpsClient::get_var("VAR apc ERR\n"), error_reply);
    assert_eq!(UpsClient::get_var(""), malformed);
    assert_eq!(UpsClient::get_var("\n"), malformed);
    assert_eq!(UpsClient::get_var("VAR apc battery.charge\n"), malformed);
    assert_eq!(UpsClient::get_var("var apc battery.charge 100\n"), malformed);
    assert_eq!(UpsClient::get_var("VARS apc battery.charge 100\n"), malformed);
    assert_eq!(UpsClient::get_var("err unknown\n"), malformed);
}

#[test]
fn get_var_agrees_with_std_string_functions() {
    for response in [
        "VAR apc battery.charge \"100\"\n", "VAR apc ups.status \"OL CHRG\"\n", "", "\n",
        "ERR UNKNOWN-UPS\n", "VAR a b\n", "VAR a b c\n", "VAR a b \"\"\"c\"\n",
        "VAR\ta\u{a0}b\u{3000}\"c  d\"\r\n", "XVAR a b c d ERR\n", "VAR a b \"c \" d\"\n",
        " \t VAR a b c\n", "VAR a b \" \"\n", "OK\n",
    ] {
        assert_eq!(UpsClient::get_var(response), reference_get_var(response), "{:?}", response);
    }
}

#[test]
fn on_battery_is_read_from_the_status_tokens() {
    assert!(is_on_battery("OB"));
    assert!(is_on_battery("OB LB"));
    assert!(is_on_battery("OL DISCHRG"));
    assert!(is_on_battery("FSD OB DISCHRG"));
    assert!(!is_on_battery("OL"));
    assert!(!is_on_battery("OL CHRG"));
    assert!(!is_on_battery(""));
    assert!(!is_on_battery("ob"));
    assert!(!is_on_battery("dischrg"));
    // Any occurrence counts, inside a longer token too.
    assert!(is_on_battery("BOOST-OBS"));
}

#[test]
fn status_variables_in_order() {
    let mut q = StatusQuery::new();
    let mut names = Vec::new();
    while let Some(v) = q.next_variable() {
        names.push(v.name());
        q.record(answered("VAR apc x \"1\"\n")).expect("answer accepted");
    }
    assert_eq!(names, vec!["battery.charge", "battery.runtime", "ups.status", "output.power"]);
    assert_eq!(StatusVariable::Charge.name(), "battery.charge");
    assert_eq!(StatusVariable::Power.name(), "output.power");
}

#[test]
fn get_status_puts_the_reading_together() {
    let s = client()
        .get_status(
            answered("VAR apc battery.charge \"87.5\"\n"),
            answered("VAR apc battery.runtime \"1740\"\n"),
            answered("VAR apc ups.status \"OB DISCHRG\"\n"),
            answered("VAR apc output.power \"231.4\"\n"),
        )
        .expect("a reading");
    assert_eq!(f64::from_bits(s.battery_charge.to_bits()), 87.5);
    assert_eq!(s.battery_runtime, 1740);
    assert_eq!(s.ups_status, "OB DISCHRG");
    assert!(s.on_battery);
    assert_eq!(s.output_power.map(|p| f64::from_bits(p.to_bits())), Some(231.4));
}

#[test]
fn get_status_on_line_power() {
    let s = client()
        .get_status(
            answered("VAR apc battery.charge \"100\"\n"),
            answered("VAR apc battery.runtime \"3000\"\n"),
            answered("VAR apc ups.status \"OL CHRG\"\n"),
            answered("VAR apc output.power \"120\"\n"),
        )
        .expect("a reading");
    assert!(!s.on_battery);
    assert_eq!(s.ups_status, "OL CHRG");
}

#[test]
fn charge_and_runtime_that_are_no_numbers_count_as_zero() {
    let s = client()
        .get_status(
            answered("VAR apc battery.charge \"n/a\"\n"),
            answered("VAR apc battery.runtime \"12.5\"\n"),
            answered("VAR apc ups.status \"OL\"\n"),
            answered("VAR apc output.power \"100\"\n"),
        )
        .expect("a reading");
    assert_eq!(s.battery_charge.to_bits(), 0.0f64.to_bits());
    assert_eq!(s.battery_runtime, 0);
}

#[test]
fn output_power_may_be_missing() {
    for power in [
        answered("ERR VAR-NOT-SUPPORTED\n"),
        answered(""),
        lost(),
        answered("VAR apc output.power \"unknown\"\n"),
    ] {
        let s = client()
            .get_status(
                answered("VAR apc battery.charge \"100\"\n"),
                answered("VAR apc battery.runtime \"3000\"\n"),
                answered("VAR apc ups.status \"OL\"\n"),
                power,
            )
            .expect("a reading");
        assert_eq!(s.output_power, None);
    }
}

#[test]
fn get_status_fails_with_the_first_required_failure() {
    let good = || answered("VAR apc x \"1\"\n");
    let unknown = || answered("ERR UNKNOWN-UPS\n");
    let error_reply = UpsError::Protocol(ProtocolFault::ErrorReply);
    assert_eq!(client().get_status(unknown(), good(), good(), good()).err(), Some(error_reply));
    assert_eq!(client().get_status(good(), unknown(), good(), good()).err(), Some(error_reply));
    assert_eq!(client().get_status(good(), good(), unknown(), good()).err(), Some(error_reply));
    assert_eq!(
        client().get_status(lost(), unknown(), good(), good()).err(),
        Some(UpsError::Connection)
    );
    assert_eq!(
        client().get_status(good(), answered(""), unknown(), good()).err(),
        Some(UpsError::Protocol(ProtocolFault::Malformed))
    );
}

#[test]
fn error_reply_fails_the_status_read() {
    // A variable read answered with ERR UNKNOWN-UPS fails the whole read.
    assert_eq!(
        UpsClient::get_var("ERR UNKNOWN-UPS\n"),
        Err(UpsError::Protocol(ProtocolFault::ErrorReply))
    );
    let mut q = client().begin_status();
    assert_eq!(
        q.record(answered("ERR UNKNOWN-UPS\n")),
        Err(UpsError::Protocol(ProtocolFault::ErrorReply))
    );
    // Nothing was recorded: the query still asks for the charge and holds no reading.
    assert_eq!(q.next_variable(), Some(StatusVariable::Charge));
    assert!(q.finish().is_none());
}

#[test]
fn a_query_is_complete_after_four_answers() {
    let mut q = StatusQuery::new();
    for line in [
        "VAR apc battery.charge \"55\"\n",
        "VAR apc battery.runtime \"600\"\n",
        "VAR apc ups.status \"OB\"\n",
    ] {
        q.record(answered(line)).expect("accepted");
    }
    assert_eq!(q.next_variable(), Some(StatusVariable::Power));
    q.record(lost()).expect("power may be missing");
    assert_eq!(q.next_variable(), None);
    // Further answers change nothing.
    q.record(answered("VAR apc output.power \"9\"\n")).expect("ignored");
    let s = q.finish().expect("complete");
    assert_eq!(f64::from_bits(s.battery_charge.to_bits()), 55.0);
    assert_eq!(s.battery_runtime, 600);
    assert!(s.on_battery);
    assert_eq!(s.output_power, None);
}

fn lines(text: &[&str]) -> Vec<String> {
    text.iter().map(|l| l.to_string()).collect()
}

fn pairs(v: &[(&str, &str)]) -> Vec<(String, String)> {
    v.iter().map(|(a, b)| (a.to_string(), b.to_string())).collect()
}

#[test]
fn list_vars_keeps_protocol_order() {
    let listing = lines(&[
        "BEGIN LIST VAR apc",
        "VAR apc battery.charge \"100\"",
        "VAR apc ups.status \"OL CHRG\"",
        "VAR apc ups.model \"Back-UPS ES 700\"",
        "END LIST VAR apc",
    ]);
    assert_eq!(
        client().list_vars(&listing),
        pairs(&[
            ("battery.charge", "100"),
            ("ups.status", "OL CHRG"),
            ("ups.model", "Back-UPS ES 700"),
        ])
    );
}

#[test]
fn list_vars_stops_at_end_list() {
    let listing = lines(&[
        "VAR apc a \"1\"",
        "END LIST VAR apc",
        "VAR apc b \"2\"",
        "VAR apc c \"3\"",
    ]);
    assert_eq!(client().list_vars(&listing), pairs(&[("a", "1")]));
    let without_tail = lines(&["VAR apc a \"1\"", "END LIST VAR apc"]);
    assert_eq!(client().list_vars(&listing), client().list_vars(&without_tail));
}

#[test]
fn list_vars_keeps_duplicates_and_skips_other_lines() {
    let listing = lines(&[
        "VAR apc a \"1\"",
        "garbage",
        "",
        "VAR apc a \"1\"",
        "VAR apc short",
        " VAR apc indented \"x\"",
        " END LIST VAR apc",
        "VARIANT apc b \"2\"",
    ]);
    assert_eq!(client().list_vars(&listing), pairs(&[("a", "1"), ("a", "1"), ("b", "2")]));
    assert_eq!(client().list_vars(&Vec::new()), pairs(&[]));
}

#[test]
fn a_listing_wants_no_more_lines_once_it_has_ended() {
    let mut l = VarListing::new();
    assert!(!l.is_done());
    assert!(l.accept("BEGIN LIST VAR apc"));
    assert!(l.accept("VAR apc a \"1\""));
    assert!(!l.accept("END LIST VAR apc"));
    assert!(l.is_done());
    assert!(!l.accept("VAR apc b \"2\""));
    assert_eq!(l.into_vars(), pairs(&[("a", "1")]));
}
