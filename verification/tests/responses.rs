use nrclue::error::Error;
use nrclue::nerdgraph::actor::{has_info_shape, has_query_shape};
use nrclue::nerdgraph::client::{
    classify_failure, starts_with, ACTOR_INFO_QUERY, API_KEY_HEADER, DEFAULT_ENDPOINT, NRQL_QUERY,
    USER_INFO_QUERY,
};
use nrclue::nerdgraph::{
    Account, Actor, Client, ClientConfig, Data, InfoActor, Json, JsonValue, Member, NrqlActor,
    Reply, User, Vars,
};

fn field(name: &str, value: Json) -> Member {
    Member { name: name.to_string(), value }
}

fn obj(members: Vec<Member>) -> Json {
    Json::Object(members)
}

fn number_of(literal: &str) -> Json {
    Json::Number(literal.to_string())
}

fn string_of(value: &str) -> Json {
    Json::Text(value.to_string())
}

fn decode_error(column: &str) -> Error {
    Error::Decode(column.to_string())
}

fn account_json(id: &str, name: &str) -> Json {
    obj(vec![field("id", number_of(id)), field("name", string_of(name))])
}

fn info_members() -> Vec<Member> {
    vec![
        field(
            "accounts",
            Json::Array(vec![account_json("265881", "Production"), account_json("7", "Staging")]),
        ),
        field("user", obj(vec![field("name", string_of("Ada"))])),
    ]
}

fn query_members(rows: Vec<Json>) -> Vec<Member> {
    vec![field(
        "account",
        obj(vec![field(
            "nrql",
            obj(vec![
                field("results", Json::Array(rows)),
                field("nrql", string_of("SELECT count(*) FROM Transaction FACET name")),
            ]),
        )]),
    )]
}

fn two_rows() -> Vec<Json> {
    vec![
        obj(vec![field("name", string_of("A")), field("count", number_of("3"))]),
        obj(vec![field("name", string_of("B")), field("count", number_of("1.5"))]),
    ]
}

fn data_of(actor: Json) -> Json {
    obj(vec![field("actor", actor)])
}

fn client() -> Client {
    Client::new(Some("test-key".to_string()), None).unwrap()
}

#[test]
fn info_shape_is_recognized() {
    let body = obj(info_members());
    assert!(has_info_shape(&body));
    assert!(!has_query_shape(&body));
    let resolved = Actor::resolve(&body).unwrap();
    assert_eq!(
        resolved,
        Actor::Info(InfoActor {
            accounts: vec![
                Account { id: 265881, name: "Production".to_string() },
                Account { id: 7, name: "Staging".to_string() },
            ],
            user: User { name: "Ada".to_string() },
        })
    );
}

#[test]
fn query_shape_is_recognized() {
    let body = obj(query_members(two_rows()));
    assert!(has_query_shape(&body));
    assert!(!has_info_shape(&body));
    match Actor::resolve(&body).unwrap() {
        Actor::Nrql(actor) => {
            assert_eq!(actor.account.nrql.nrql, "SELECT count(*) FROM Transaction FACET name");
            assert_eq!(actor.account.nrql.results.len(), 2);
        }
        Actor::Info(_) => panic!("resolved to the info shape"),
    }
}

#[test]
fn both_shapes_are_a_schema_mismatch() {
    let mut members = info_members();
    members.extend(query_members(two_rows()));
    let body = obj(members);
    assert!(has_info_shape(&body));
    assert!(has_query_shape(&body));
    assert_eq!(Actor::resolve(&body), Err(Error::SchemaMismatch));
}

#[test]
fn neither_shape_is_a_schema_mismatch() {
    assert_eq!(Actor::resolve(&obj(vec![])), Err(Error::SchemaMismatch));
    assert_eq!(Actor::resolve(&Json::Null), Err(Error::SchemaMismatch));
    assert_eq!(Actor::resolve(&Json::Array(vec![])), Err(Error::SchemaMismatch));
    assert_eq!(
        Actor::resolve(&obj(vec![field("user", obj(vec![field("name", string_of("Ada"))]))])),
        Err(Error::SchemaMismatch)
    );
    assert_eq!(
        Actor::resolve(&obj(vec![field("accounts", Json::Array(vec![]))])),
        Err(Error::SchemaMismatch)
    );
    assert_eq!(
        Actor::resolve(&obj(vec![field("account", obj(vec![field("nrql", obj(vec![]))]))])),
        Err(Error::SchemaMismatch)
    );
}

#[test]
fn shape_members_of_the_wrong_kind_do_not_count() {
    let accounts_not_array =
        obj(vec![field("accounts", obj(vec![])), field("user", obj(vec![]))]);
    assert!(!has_info_shape(&accounts_not_array));
    let user_not_object =
        obj(vec![field("accounts", Json::Array(vec![])), field("user", string_of("Ada"))]);
    assert!(!has_info_shape(&user_not_object));
    let results_not_array = obj(vec![field(
        "account",
        obj(vec![field("nrql", obj(vec![field("results", obj(vec![]))]))]),
    )]);
    assert!(!has_query_shape(&results_not_array));
    assert_eq!(Actor::resolve(&results_not_array), Err(Error::SchemaMismatch));
}

#[test]
fn info_shape_decodes_accounts_before_user() {
    let body = obj(vec![
        field("accounts", Json::Array(vec![account_json("1", "One"), obj(vec![])])),
        field("user", obj(vec![])),
    ]);
    assert_eq!(InfoActor::decode(&body), Err(decode_error("id")));
    let body = obj(vec![
        field("accounts", Json::Array(vec![account_json("1", "One")])),
        field("user", obj(vec![])),
    ]);
    assert_eq!(InfoActor::decode(&body), Err(decode_error("name")));
}

#[test]
fn account_needs_an_integer_id_and_a_name() {
    assert_eq!(
        Account::decode(&account_json("265881", "Production")),
        Ok(Account { id: 265881, name: "Production".to_string() })
    );
    assert_eq!(
        Account::decode(&account_json("9223372036854775807", "Max")),
        Ok(Account { id: i64::MAX, name: "Max".to_string() })
    );
    assert_eq!(Account::decode(&account_json("9223372036854775808", "Over")), Err(decode_error("id")));
    assert_eq!(Account::decode(&account_json("1.0", "Float")), Err(decode_error("id")));
    assert_eq!(
        Account::decode(&obj(vec![field("id", string_of("1")), field("name", string_of("Text"))])),
        Err(decode_error("id"))
    );
    assert_eq!(Account::decode(&obj(vec![field("name", string_of("NoId"))])), Err(decode_error("id")));
    assert_eq!(Account::decode(&obj(vec![field("id", number_of("1"))])), Err(decode_error("name")));
    assert_eq!(
        Account::decode(&obj(vec![field("id", number_of("1")), field("name", number_of("2"))])),
        Err(decode_error("name"))
    );
    assert_eq!(Account::decode(&Json::Null), Err(decode_error("id")));
}

#[test]
fn user_needs_a_name() {
    assert_eq!(
        User::decode(&obj(vec![field("name", string_of("Ada"))])),
        Ok(User { name: "Ada".to_string() })
    );
    assert_eq!(User::decode(&obj(vec![])), Err(decode_error("name")));
    assert_eq!(User::decode(&obj(vec![field("name", Json::Null)])), Err(decode_error("name")));
}

#[test]
fn query_shape_needs_its_query_text() {
    let body = obj(vec![field(
        "account",
        obj(vec![field("nrql", obj(vec![field("results", Json::Array(vec![]))]))]),
    )]);
    assert!(has_query_shape(&body));
    assert_eq!(NrqlActor::decode(&body), Err(decode_error("nrql")));
}

#[test]
fn bad_row_fails_the_query_shape() {
    let mut rows = two_rows();
    rows.push(obj(vec![field("name", Json::Null)]));
    rows.push(Json::Null);
    assert_eq!(NrqlActor::decode(&obj(query_members(rows))), Err(decode_error("name")));
    assert_eq!(
        NrqlActor::decode(&obj(query_members(vec![Json::Null]))),
        Err(decode_error(""))
    );
}

#[test]
fn decoding_a_shape_that_is_absent_is_a_schema_mismatch() {
    assert_eq!(InfoActor::decode(&obj(query_members(two_rows()))), Err(Error::SchemaMismatch));
    assert_eq!(NrqlActor::decode(&obj(info_members())), Err(Error::SchemaMismatch));
}

#[test]
fn first_member_of_a_name_is_the_one_looked_at() {
    let body = obj(vec![
        field("name", string_of("first")),
        field("name", string_of("second")),
    ]);
    assert_eq!(body.member("name"), Some(&string_of("first")));
    assert_eq!(body.member("other"), None);
    assert_eq!(Json::Null.member("name"), None);
    assert_eq!(Json::Array(vec![body]).member("name"), None);
}

#[test]
fn data_without_actor_data_is_nothing() {
    assert_eq!(Data::decode(&Json::Null), Ok(None));
    assert_eq!(Data::decode(&data_of(Json::Null)), Ok(None));
}

#[test]
fn data_without_an_actor_member_is_a_schema_mismatch() {
    assert_eq!(Data::decode(&obj(vec![])), Err(Error::SchemaMismatch));
    assert_eq!(Data::decode(&Json::Array(vec![])), Err(Error::SchemaMismatch));
    assert_eq!(Data::decode(&data_of(obj(vec![]))), Err(Error::SchemaMismatch));
}

#[test]
fn data_holds_the_resolved_actor() {
    let data = Data::decode(&data_of(obj(info_members()))).unwrap().unwrap();
    assert!(matches!(data.actor, Actor::Info(_)));
    let data = Data::decode(&data_of(obj(query_members(vec![])))).unwrap().unwrap();
    assert!(matches!(data.actor, Actor::Nrql(_)));
}

#[test]
fn configuration_falls_back_to_the_defaults() {
    let config = ClientConfig::resolve(None, None);
    assert_eq!(config.api_key, "");
    assert_eq!(config.endpoint, "https://api.newrelic.com/graphql");
    assert_eq!(DEFAULT_ENDPOINT, "https://api.newrelic.com/graphql");
    let config = ClientConfig::resolve(
        Some("test-key".to_string()),
        Some("https://staging.example/graphql".to_string()),
    );
    assert_eq!(config.api_key, "test-key");
    assert_eq!(config.endpoint, "https://staging.example/graphql");
}

#[test]
fn missing_credential_is_detected_at_construction() {
    assert_eq!(Client::new(None, None), Err(Error::CredentialMissing));
    assert_eq!(Client::new(Some(String::new()), None), Err(Error::CredentialMissing));
    assert_eq!(
        Client::new(None, Some("https://staging.example/graphql".to_string())),
        Err(Error::CredentialMissing)
    );
}

#[test]
fn client_keeps_its_configuration() {
    let client = Client::new(Some("test-key".to_string()), None).unwrap();
    assert_eq!(client.config().api_key, "test-key");
    assert_eq!(client.config().endpoint, DEFAULT_ENDPOINT);
    let client = Client::new(
        Some("test-key".to_string()),
        Some("https://eu.example/graphql".to_string()),
    )
    .unwrap();
    assert_eq!(client.config().endpoint, "https://eu.example/graphql");
}

#[test]
fn every_request_carries_the_api_key() {
    let header = client().header();
    assert_eq!(header.name, "api-key");
    assert_eq!(header.name, API_KEY_HEADER);
    assert_eq!(header.value, "test-key");
}

#[test]
fn info_request_takes_no_variables() {
    let request = client().actor_info_request();
    assert_eq!(request.query, ACTOR_INFO_QUERY);
    assert!(request.query.contains("query nrClueGetActorInfo"));
    assert!(request.query.contains("accounts { id name }"));
    assert!(request.query.contains("user { name }"));
    assert_eq!(request.variables, None);
}

#[test]
fn query_request_carries_its_variables() {
    let request =
        client().nrql_request(265881, "SELECT count(*) FROM Transaction FACET name".to_string());
    assert_eq!(request.query, NRQL_QUERY);
    assert!(request.query.contains("query nrClueGetNrql($account_id: Int!, $nrql_query: Nrql!)"));
    assert!(request.query.contains("account(id: $account_id)"));
    assert!(request.query.contains("nrql(query:$nrql_query)"));
    assert_eq!(
        request.variables,
        Some(Vars {
            account_id: 265881,
            nrql_query: "SELECT count(*) FROM Transaction FACET name".to_string(),
        })
    );
}

#[test]
fn fetch_query_results_decodes_two_rows() {
    let client = client();
    let request =
        client.nrql_request(265881, "SELECT count(*) FROM Transaction FACET name".to_string());
    assert_eq!(request.variables.unwrap().account_id, 265881);
    let reply = Reply::Answered(Some(data_of(obj(query_members(two_rows())))));
    let rows = client.nrql(reply).unwrap().unwrap();
    assert_eq!(rows.len(), 2);
    assert_eq!(rows[0].get("name"), Some(&JsonValue::String("A".to_string())));
    assert_eq!(rows[0].get("count"), Some(&JsonValue::Integer(3)));
    assert_eq!(rows[1].get("name"), Some(&JsonValue::String("B".to_string())));
    assert_eq!(rows[1].get("count"), Some(&JsonValue::Float("1.5".to_string())));
    match rows[1].get("count") {
        Some(JsonValue::Float(literal)) => assert_eq!(literal.parse::<f64>(), Ok(1.5)),
        other => panic!("{other:?}"),
    }
}

#[test]
fn fetch_info_decodes_accounts_and_user() {
    let reply = Reply::Answered(Some(data_of(obj(info_members()))));
    let info = client().actor_info(reply).unwrap().unwrap();
    assert_eq!(info.accounts.len(), 2);
    assert_eq!(info.accounts[0], Account { id: 265881, name: "Production".to_string() });
    assert_eq!(info.user.name, "Ada");
}

#[test]
fn no_data_is_nothing_and_no_error() {
    assert_eq!(client().actor_info(Reply::Answered(None)), Ok(None));
    assert_eq!(client().actor_info(Reply::Answered(Some(Json::Null))), Ok(None));
    assert_eq!(client().actor_info(Reply::Answered(Some(data_of(Json::Null)))), Ok(None));
    assert_eq!(client().nrql(Reply::Answered(None)), Ok(None));
    assert_eq!(client().nrql(Reply::Answered(Some(Json::Null))), Ok(None));
    assert_eq!(client().nrql(Reply::Answered(Some(data_of(Json::Null)))), Ok(None));
}

#[test]
fn query_with_no_rows_is_an_empty_result_not_nothing() {
    let reply = Reply::Answered(Some(data_of(obj(query_members(vec![])))));
    assert_eq!(client().nrql(reply), Ok(Some(vec![])));
}

#[test]
fn transport_failure_is_reported_with_its_message() {
    assert_eq!(
        client().actor_info(Reply::Failed("connection refused".to_string())),
        Err(Error::Transport("connection refused".to_string()))
    );
    assert_eq!(
        client().nrql(Reply::Failed("The response is [503]".to_string())),
        Err(Error::Transport("The response is [503]".to_string()))
    );
}

#[test]
fn unparsable_body_is_a_decode_failure() {
    let message = "Failed to parse response: expected value at line 1 column 1. The response body is: <html>";
    assert_eq!(client().actor_info(Reply::Failed(message.to_string())), Err(decode_error("")));
    assert_eq!(client().nrql(Reply::Failed(message.to_string())), Err(decode_error("")));
    assert_eq!(classify_failure(message.to_string()), decode_error(""));
    assert_eq!(
        classify_failure("failed to parse response".to_string()),
        Error::Transport("failed to parse response".to_string())
    );
    assert_eq!(classify_failure(String::new()), Error::Transport(String::new()));
}

#[test]
fn unreadable_redirect_header_is_a_transport_failure() {
    let message = "Failed to parse response header: Location. InvalidHeaderValue";
    assert_eq!(classify_failure(message.to_string()), Error::Transport(message.to_string()));
    assert_eq!(
        client().actor_info(Reply::Failed(message.to_string())),
        Err(Error::Transport(message.to_string()))
    );
    assert_eq!(
        classify_failure("Failed to parse response".to_string()),
        Error::Transport("Failed to parse response".to_string())
    );
    assert_eq!(classify_failure("Failed to parse response:".to_string()), decode_error(""));
}

#[test]
fn user_request_takes_no_variables() {
    let request = client().user_info_request();
    assert_eq!(request.query, USER_INFO_QUERY);
    assert!(request.query.contains("query ShowUser"));
    assert!(!request.query.contains("accounts"));
    assert_eq!(request.variables, None);
}

#[test]
fn user_info_decodes_the_user() {
    let data = data_of(obj(vec![field("user", obj(vec![field("name", string_of("Ada"))]))]));
    assert_eq!(
        client().user_info(Reply::Answered(Some(data))),
        Ok(Some(User { name: "Ada".to_string() }))
    );
    let with_accounts = data_of(obj(info_members()));
    assert_eq!(
        client().user_info(Reply::Answered(Some(with_accounts))),
        Ok(Some(User { name: "Ada".to_string() }))
    );
}

#[test]
fn user_info_without_actor_data_is_nothing() {
    assert_eq!(client().user_info(Reply::Answered(None)), Ok(None));
    assert_eq!(client().user_info(Reply::Answered(Some(Json::Null))), Ok(None));
    assert_eq!(client().user_info(Reply::Answered(Some(data_of(Json::Null)))), Ok(None));
}

#[test]
fn user_info_reports_what_is_wrong_with_the_reply() {
    assert_eq!(
        client().user_info(Reply::Failed("timed out".to_string())),
        Err(Error::Transport("timed out".to_string()))
    );
    assert_eq!(
        client().user_info(Reply::Failed("Failed to parse response: EOF".to_string())),
        Err(decode_error(""))
    );
    assert_eq!(client().user_info(Reply::Answered(Some(obj(vec![])))), Err(Error::SchemaMismatch));
    assert_eq!(
        client().user_info(Reply::Answered(Some(data_of(obj(vec![]))))),
        Err(Error::SchemaMismatch)
    );
    assert_eq!(
        client().user_info(Reply::Answered(Some(data_of(obj(query_members(two_rows())))))),
        Err(Error::SchemaMismatch)
    );
    assert_eq!(
        client().user_info(Reply::Answered(Some(data_of(obj(vec![field("user", obj(vec![]))]))))),
        Err(decode_error("name"))
    );
    assert_eq!(
        client().user_info(Reply::Answered(Some(data_of(obj(vec![field("user", Json::Null)]))))),
        Err(decode_error("name"))
    );
}

#[test]
fn user_data_holds_actor_and_user() {
    let data = data_of(obj(vec![field("user", obj(vec![field("name", string_of("Ada"))]))]));
    assert_eq!(
        nrclue::nerdgraph::user::Data::decode(&data),
        Ok(Some(nrclue::nerdgraph::user::Data {
            actor: nrclue::nerdgraph::user::Actor { user: User { name: "Ada".to_string() } },
        }))
    );
    assert_eq!(nrclue::nerdgraph::user::Data::decode(&Json::Null), Ok(None));
}

#[test]
fn reply_of_the_other_shape_is_a_schema_mismatch() {
    let info = Reply::Answered(Some(data_of(obj(info_members()))));
    assert_eq!(client().nrql(info), Err(Error::SchemaMismatch));
    let query = Reply::Answered(Some(data_of(obj(query_members(two_rows())))));
    assert_eq!(client().actor_info(query), Err(Error::SchemaMismatch));
}

#[test]
fn decode_failure_in_a_reply_is_reported() {
    let rows = vec![obj(vec![field("name", string_of("A")), field("name", string_of("B"))])];
    let reply = Reply::Answered(Some(data_of(obj(query_members(rows)))));
    assert_eq!(client().nrql(reply), Err(decode_error("name")));
    let reply = Reply::Answered(Some(obj(vec![])));
    assert_eq!(client().actor_info(reply), Err(Error::SchemaMismatch));
}

#[test]
fn any_reply_resolves_to_its_actor() {
    let reply = Reply::Answered(Some(data_of(obj(info_members()))));
    assert!(matches!(client().actor(reply), Ok(Some(Data { actor: Actor::Info(_) }))));
    assert_eq!(client().actor(Reply::Answered(None)), Ok(None));
}

#[test]
fn starts_with_compares_character_by_character() {
    assert!(starts_with("", ""));
    assert!(starts_with("abc", ""));
    assert!(starts_with("abc", "ab"));
    assert!(starts_with("abc", "abc"));
    assert!(!starts_with("abc", "abcd"));
    assert!(!starts_with("abc", "b"));
    assert!(!starts_with("", "a"));
    assert!(starts_with("héllo", "hé"));
}

#[test]
fn error_kinds_have_distinct_diagnostics() {
    assert_eq!(Error::Transport("timed out".to_string()).kind(), "TransportError");
    assert_eq!(decode_error("count").kind(), "DecodeError");
    assert_eq!(Error::SchemaMismatch.kind(), "SchemaMismatchError");
    assert_eq!(Error::CredentialMissing.kind(), "CredentialMissingError");
    assert_eq!(Error::Terminal("no tty".to_string()).kind(), "TerminalError");
    assert_eq!(Error::Transport("timed out".to_string()).diagnostic(), "TransportError: timed out");
    assert_eq!(decode_error("count").diagnostic(), "DecodeError: count");
    assert_eq!(Error::SchemaMismatch.diagnostic(), "SchemaMismatchError: ");
    assert_eq!(Error::CredentialMissing.diagnostic(), "CredentialMissingError: ");
    assert_eq!(Error::Terminal("no tty".to_string()).diagnostic(), "TerminalError: no tty");
}
