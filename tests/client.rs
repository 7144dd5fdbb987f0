use rusigma::client::{gender_label, SigmaClient};
use rusigma::errors::{api_error_text, Error};
use rusigma::http::{Call, HTTPClient, MagicLookup, Plan, Request, KEY_HEADER, PLAN_COUNT};
use rusigma::json::{parse_json, JsonValue};
use rusigma::response::{
    DNIProfesional, DNIStandardResponse, ErrorResponse, JsonRecord, LoginResponse,
    MovistarEmail, PersonaFromNumeroMagic, PlateHistory, TitularCBU,
};
use rusigma::text::{find_char, parse_bounded_decimal, same_text};

fn logged_in(plan: usize) -> SigmaClient {
    let mut c = SigmaClient::new();
    c.http.set_api_token("tok", plan);
    c
}

fn param<'a>(q: &'a Request, name: &str) -> Option<&'a str> {
    q.params.iter().find(|(k, _)| k == name).map(|(_, v)| v.as_str())
}

const DNI_URL: &str = "https://sigma-search.io/api/v2/medium/osint/argentina/resolver/dni";

#[test]
fn unauthenticated_operations_send_nothing() {
    let c = SigmaClient::new();
    let s = || "x".to_string();
    assert_eq!(c.search_standard_dni(s()).unwrap_err(), Error::NoLoginToken);
    assert_eq!(c.search_phones_by_dni(s()).unwrap_err(), Error::NoLoginToken);
    assert_eq!(c.search_plate(s()).unwrap_err(), Error::NoLoginToken);
    assert_eq!(c.search_plate_by_dni(s()).unwrap_err(), Error::NoLoginToken);
    assert_eq!(c.search_leaks(s()).unwrap_err(), Error::NoLoginToken);
    assert_eq!(c.search_profesional_dni(s(), 1).unwrap_err(), Error::NoLoginToken);
    assert_eq!(c.search_name(s(), None).unwrap_err(), Error::NoLoginToken);
    assert_eq!(c.search_movistar_email(s()).unwrap_err(), Error::NoLoginToken);
    assert_eq!(c.search_by_address(s()).unwrap_err(), Error::NoLoginToken);
    assert_eq!(c.search_phone(s()).unwrap_err(), Error::NoLoginToken);
    assert_eq!(c.search_phone_magic(s()).unwrap_err(), Error::NoLoginToken);
    assert_eq!(c.search_cbu(s()).unwrap_err(), Error::NoLoginToken);
    assert_eq!(c.search_email(s()).unwrap_err(), Error::NoLoginToken);
    assert_eq!(c.session_text(), None);
}

#[test]
fn error_envelope_gives_api_error_with_message() {
    let c = logged_in(2);
    let body = br#"{"error": true, "mensaje": "X"}"#;
    let want = Error::ApiError(ErrorResponse { error: true, message: "X".to_string() });
    let call = c.search_standard_dni("1".to_string()).unwrap();
    assert_eq!(call.read_reply(404, body).unwrap_err(), want);
    let call = c.search_plate("AB123".to_string()).unwrap();
    assert_eq!(call.read_reply(500, body).unwrap_err(), want);
    let call = c.search_cbu("alias".to_string()).unwrap();
    assert_eq!(call.read_reply(403, body).unwrap_err(), want);
}

#[test]
fn error_status_without_envelope_is_deserialization_error() {
    let c = logged_in(2);
    let call = c.search_email("a@b.c".to_string()).unwrap();
    let r = call.read_reply(500, br#"{"detail": "boom"}"#);
    assert!(matches!(r, Err(Error::DeserealizationError(_))));
}

#[test]
fn missing_required_member_is_deserialization_error() {
    let c = logged_in(2);
    let call = c.search_standard_dni("1".to_string()).unwrap();
    let r = call.read_reply(200, br#"{"apellido": "Perez"}"#);
    assert!(matches!(r, Err(Error::DeserealizationError(_))));
    let call = c.search_movistar_email("11".to_string()).unwrap();
    let r = call.read_reply(200, br#"{"num": "11"}"#);
    assert!(matches!(r, Err(Error::DeserealizationError(_))));
}

#[test]
fn absent_optional_members_still_read() {
    let c = logged_in(2);
    let call = c.search_plate("AB123".to_string()).unwrap();
    let r = call.read_reply(200, br#"[{}, {"patente": "AB123", "marca": null}]"#).unwrap();
    assert_eq!(r.len(), 2);
    assert_eq!(r[0].patente, None);
    assert_eq!(r[0].transferencia, None);
    assert_eq!(r[1].patente, Some("AB123".to_string()));
    assert_eq!(r[1].marca, None);

    let call = c.search_standard_dni("1".to_string()).unwrap();
    let body = br#"{"doc": "1", "apellido": "A", "nombres": "N", "calle": "C",
        "seccion": "S", "circuito": "Ci", "tipo_doc": "DNI", "localidad": "L",
        "provincia": "P", "extra": 7}"#;
    let r = call.read_reply(200, body).unwrap();
    assert_eq!(r.documento, "1");
    assert_eq!(r.tipo_doc, "DNI");
    assert_eq!(r.codigo_postal, None);
}

#[test]
fn optional_member_of_wrong_type_is_deserialization_error() {
    let c = logged_in(2);
    let call = c.search_plate("AB123".to_string()).unwrap();
    let r = call.read_reply(200, br#"[{"patente": 5}]"#);
    assert!(matches!(r, Err(Error::DeserealizationError(_))));
}

#[test]
fn malformed_body_is_deserialization_error() {
    let c = logged_in(2);
    let call = c.search_standard_dni("1".to_string()).unwrap();
    assert!(matches!(call.read_reply(200, b"{not json"), Err(Error::DeserealizationError(_))));
    assert!(matches!(call.read_reply(200, b"[]"), Err(Error::DeserealizationError(_))));
    assert!(matches!(call.read_reply(404, b""), Err(Error::DeserealizationError(_))));
}

#[test]
fn login_then_calls_use_plan_and_token() {
    let mut c = SigmaClient::new();
    let q = c.login_with_credentials("u".to_string(), "p".to_string());
    assert_eq!(q.url, "https://sigma-search.io/api/sigma/client/login");
    assert_eq!(q.key, None);
    assert_eq!(param(&q, "username"), Some("u"));
    assert_eq!(param(&q, "password"), Some("p"));
    assert_eq!(c.complete_login(200, br#"{"token":"abc","plan":2}"#), Ok(()));
    assert_eq!(c.http.token_str, Some("abc".to_string()));
    assert_eq!(c.http.plan_id, Some(2));
    let call = c.search_standard_dni("30111222".to_string()).unwrap();
    assert_eq!(call.request.url, DNI_URL);
    assert_eq!(call.request.key, Some("abc".to_string()));
    assert_eq!(param(&call.request, "dni"), Some("30111222"));
}

#[test]
fn failed_login_leaves_session_unchanged() {
    let mut c = SigmaClient::new();
    let r = c.complete_login(401, br#"{"error": true, "mensaje": "bad credentials"}"#);
    assert_eq!(
        r,
        Err(Error::ApiError(ErrorResponse { error: true, message: "bad credentials".to_string() }))
    );
    assert_eq!(c.http.token_str, None);
    let r = c.complete_login(200, br#"{"token":"abc","plan":7}"#);
    assert!(matches!(r, Err(Error::DeserealizationError(_))));
    let r = c.complete_login(200, br#"{"token":"abc","plan":300}"#);
    assert!(matches!(r, Err(Error::DeserealizationError(_))));
    let r = c.complete_login(200, br#"{"token":"abc","plan":2.5}"#);
    assert!(matches!(r, Err(Error::DeserealizationError(_))));
    assert_eq!(c.http.token_str, None);
    assert_eq!(c.http.plan_id, None);
}

#[test]
fn profesional_dni_sends_gender_label() {
    let c = logged_in(1);
    let url = "https://sigma-search.io/api/v2/profesional/osint/argentina/resolver/dni_two";
    let q = c.search_profesional_dni("123".to_string(), 1).unwrap().request;
    assert_eq!(q.url, url);
    assert_eq!(param(&q, "dato"), Some("123:Masculino"));
    let q = c.search_profesional_dni("123".to_string(), 2).unwrap().request;
    assert_eq!(param(&q, "dato"), Some("123:Femenino"));
    let q = c.search_profesional_dni("123".to_string(), 3).unwrap().request;
    assert_eq!(param(&q, "dato"), Some("123:Otro"));
    let q = c.search_profesional_dni("123".to_string(), 0).unwrap().request;
    assert_eq!(param(&q, "dato"), Some("123:Otro"));
    assert_eq!(gender_label(2), "Femenino");
}

#[test]
fn magic_lookups_share_path_and_differ_in_tipo() {
    let c = logged_in(3);
    let url = "https://sigma-search.io/api/v2/standard/osint/argentina/resolver/magic";
    let cbu = c.search_cbu("mi.alias".to_string()).unwrap().request;
    let email = c.search_email("a@b.c".to_string()).unwrap().request;
    let phone = c.search_phone_magic("1155".to_string()).unwrap().request;
    for q in [&cbu, &email, &phone] {
        assert_eq!(q.url, url);
        assert_eq!(q.params.len(), 2);
    }
    assert_eq!(param(&cbu, "tipo"), Some("buscar_cbu_alias"));
    assert_eq!(param(&cbu, "dato"), Some("mi.alias"));
    assert_eq!(param(&email, "tipo"), Some("buscar_email"));
    assert_eq!(param(&email, "dato"), Some("a@b.c"));
    assert_eq!(param(&phone, "tipo"), Some("buscar_celular"));
    assert_eq!(param(&phone, "dato"), Some("1155"));
    assert_eq!(MagicLookup::Email.tag(), "buscar_email");
}

#[test]
fn set_credentials_round_trip() {
    let mut h = HTTPClient::new();
    h.set_api_token("my:odd token", 4);
    assert_eq!(h.token_str, Some("my:odd token".to_string()));
    assert_eq!(h.plan_id, Some(4));
    let c = logged_in(2);
    let text = c.session_text().unwrap();
    assert_eq!(text, "tok:2");
    let back = SigmaClient::from_creds(text).unwrap();
    assert_eq!(back.http.token_str, Some("tok".to_string()));
    assert_eq!(back.http.plan_id, Some(2));
}

#[test]
fn from_creds_reads_token_and_plan() {
    let c = SigmaClient::from_creds("abc:0".to_string()).unwrap();
    assert_eq!(c.http.token_str, Some("abc".to_string()));
    assert_eq!(c.http.plan_id, Some(0));
    let c = SigmaClient::from_creds("abc:03:rest".to_string()).unwrap();
    assert_eq!(c.http.plan_id, Some(3));
    assert!(SigmaClient::from_creds("abc".to_string()).is_none());
    assert!(SigmaClient::from_creds("abc:".to_string()).is_none());
    assert!(SigmaClient::from_creds("abc:x".to_string()).is_none());
    assert!(SigmaClient::from_creds("abc:5".to_string()).is_none());
}

#[test]
fn endpoints_follow_plan_and_override() {
    let h = logged_in(0).http;
    assert_eq!(
        h.get_url("/osint/argentina/resolver/patente", None),
        "https://sigma-search.io/api/v2/free/osint/argentina/resolver/patente"
    );
    assert_eq!(
        h.get_url("/x", Some(4)),
        "https://sigma-search.io/api/v2/comunidades/x"
    );
    let q = h.send("/y", Some(2), vec![("a".to_string(), "b".to_string())]).unwrap();
    assert_eq!(q.url, "https://sigma-search.io/api/v2/medium/y");
    assert_eq!(q.key, Some("tok".to_string()));
    let q = h.request("https://e/z".to_string(), vec![]).unwrap();
    assert_eq!(q.url, "https://e/z");
    assert_eq!(KEY_HEADER, "sigma-key");
}

#[test]
fn operation_paths_and_parameters() {
    let c = logged_in(2);
    let base = "https://sigma-search.io/api/v2/medium";
    let cases: Vec<(Request, &str, &str, &str)> = vec![
        (c.search_phones_by_dni("1".into()).unwrap().request, "/osint/argentina/resolver/dni_celular", "dni", "1"),
        (c.search_plate("P".into()).unwrap().request, "/osint/argentina/resolver/patente", "patente", "P"),
        (c.search_plate_by_dni("2".into()).unwrap().request, "/osint/argentina/resolver/patente_dni", "dni", "2"),
        (c.search_leaks("q".into()).unwrap().request, "/osint/argentina/search_engine/data_breach", "query", "q"),
        (c.search_movistar_email("11".into()).unwrap().request, "/osint/argentina/resolver/movistar", "num", "11"),
        (c.search_by_address("Calle 1".into()).unwrap().request, "/osint/argentina/resolver/direccion", "direccion", "Calle 1"),
        (c.search_phone("22".into()).unwrap().request, "/osint/argentina/resolver/celular", "num", "22"),
    ];
    for (q, path, name, value) in cases {
        assert_eq!(q.url, format!("{}{}", base, path));
        assert_eq!(q.params.len(), 1);
        assert_eq!(param(&q, name), Some(value));
        assert_eq!(q.key, Some("tok".to_string()));
    }
}

#[test]
fn name_search_appends_filters() {
    let c = logged_in(2);
    let extra = vec![
        ("provincia_nombre".to_string(), "Cordoba".to_string()),
        ("edad_desde".to_string(), "30".to_string()),
    ];
    let q = c.search_name("Juan".to_string(), Some(extra)).unwrap().request;
    assert_eq!(q.url, "https://sigma-search.io/api/v2/medium/osint/argentina/resolver/nombre");
    assert_eq!(q.params[0], ("nombre".to_string(), "Juan".to_string()));
    assert_eq!(q.params.len(), 3);
    assert_eq!(param(&q, "edad_desde"), Some("30"));
    let q = c.search_name("Juan".to_string(), None).unwrap().request;
    assert_eq!(q.params.len(), 1);
}

#[test]
fn body_is_json_object_of_parameters() {
    let c = logged_in(2);
    let q = c.search_email("a@b.c".to_string()).unwrap().request;
    let body = q.body();
    let v: serde_json::Value = serde_json::from_slice(&body).unwrap();
    assert_eq!(v["dato"], "a@b.c");
    assert_eq!(v["tipo"], "buscar_email");
    assert_eq!(v.as_object().unwrap().len(), 2);
    let q = Request {
        url: String::new(),
        key: None,
        params: vec![("k".to_string(), "1".to_string()), ("k".to_string(), "2".to_string())],
    };
    let v: serde_json::Value = serde_json::from_slice(&q.body()).unwrap();
    assert_eq!(v["k"], "2");
}

#[test]
fn profesional_record_with_coverage() {
    let c = logged_in(1);
    let call: Call<DNIProfesional> = c.search_profesional_dni("9".to_string(), 2).unwrap();
    let body = br#"{"nombres": "Ana", "edad": 41, "cobertura": [{"cobertura": "OS", "dni": "9"}, {}]}"#;
    let r = call.read_reply(200, body).unwrap();
    assert_eq!(r.nombres, Some("Ana".to_string()));
    assert_eq!(r.edad, Some(41));
    let cob = r.cobertura.unwrap();
    assert_eq!(cob.len(), 2);
    assert_eq!(cob[0].documento, Some("9".to_string()));
    assert_eq!(cob[1].cobertura, None);
    let r = call.read_reply(200, br#"{"edad": 256}"#);
    assert!(matches!(r, Err(Error::DeserealizationError(_))));
    let r = call.read_reply(200, br#"{"cobertura": null, "edad": null}"#).unwrap();
    assert_eq!(r.cobertura, None);
    assert_eq!(r.edad, None);
}

#[test]
fn records_read_renamed_members() {
    let doc = parse_json(br#"{"num": "11", "email": "x@y.z"}"#).unwrap();
    let m = MovistarEmail::from_json(&doc).unwrap();
    assert_eq!(m.numero, "11");
    let doc = parse_json(br#"{"nombre": "N", "cuit": "20", "banco": "B", "cbu": "000", "cuenta_tipo": "CA"}"#).unwrap();
    let t = TitularCBU::from_json(&doc).unwrap();
    assert_eq!(t.cuenta_tipo, "CA");
    let doc = parse_json(br#"{"nombre": "N", "apellido": "A", "email": "e", "numero": "1"}"#).unwrap();
    assert_eq!(PersonaFromNumeroMagic::from_json(&doc).unwrap().numero, "1");
    let doc = parse_json(br#"{"token": "t", "plan": 4}"#).unwrap();
    assert_eq!(LoginResponse::from_json(&doc).unwrap(), LoginResponse { token: "t".to_string(), plan: 4 });
    let doc = parse_json(br#"[1]"#).unwrap();
    assert!(DNIStandardResponse::from_json(&doc).is_err());
    assert!(PlateHistory::from_json(&doc).is_err());
}

#[test]
fn parsed_json_keeps_number_text() {
    match parse_json(b"[12, \"s\", null, true]").unwrap() {
        JsonValue::Array(items) => {
            assert!(matches!(&items[0], JsonValue::Number(t) if t == "12"));
            assert!(matches!(&items[1], JsonValue::Str(t) if t == "s"));
            assert!(matches!(items[2], JsonValue::Null));
            assert!(matches!(items[3], JsonValue::Bool(true)));
        }
        other => panic!("unexpected {:?}", other),
    }
    assert!(matches!(parse_json(b"nope"), Err(Error::DeserealizationError(_))));
}

#[test]
fn error_messages() {
    assert_eq!(Error::NoLoginToken.message(), "Not logged in or no valid token supplied");
    assert_eq!(Error::HTTPInternalError("dns".to_string()).message(), "HTTP Request failed: dns");
    assert_eq!(
        Error::DeserealizationError("bad".to_string()).message(),
        "Could not deserialize response: bad"
    );
    let e = Error::ApiError(ErrorResponse { error: true, message: "X".to_string() });
    assert_eq!(
        e.message(),
        "Error response from Sigma: ErrorResponse { error: true, message: \"X\" }"
    );
    let r = ErrorResponse { error: false, message: "say \"hi\"\n".to_string() };
    let e = Error::ApiError(r.clone());
    assert_eq!(e.message(), format!("Error response from Sigma: {:?}", r));
    assert_eq!(
        api_error_text(true, "\"q\""),
        "Error response from Sigma: ErrorResponse { error: true, message: \"q\" }"
    );
}

#[test]
fn plans_and_text_helpers() {
    assert_eq!(PLAN_COUNT, 5);
    assert_eq!(Plan::from_id(2), Some(Plan::Medium));
    assert_eq!(Plan::from_id(5), None);
    assert_eq!(Plan::Comunidades.segment(), "comunidades");
    assert_eq!(Plan::Standard.id(), 3);
    assert_eq!(parse_bounded_decimal("0255", 255), Some(255));
    assert_eq!(parse_bounded_decimal("256", 255), None);
    assert_eq!(parse_bounded_decimal("", 9), None);
    assert_eq!(parse_bounded_decimal("-1", 9), None);
    assert_eq!(find_char("a:b:c", ':', 2), 3);
    assert_eq!(find_char("abc", ':', 0), 3);
    assert!(same_text("ñu", "ñu"));
    assert!(!same_text("a", "ab"));
}
