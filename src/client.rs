//! The client: a session plus one method per search capability.
use vstd::prelude::*;

use crate::errors::Error;
use crate::http::{magic_path, name_params, Call, HTTPClient, Request, PLAN_COUNT};
use crate::response::{
    BreachCredentials, DNIProfesional, DNIStandardResponse, EmailResultados, MovistarEmail,
    PersonaDireccion, PersonaFromNumero, PersonaFromNumeroMagic, PersonaNombre, PhoneNumber,
    PlateHistory, TitularCBU,
};
use crate::text::{bounded_decimal, find_char, find_from, parse_bounded_decimal};

verus! {

/// The gender label sent for a gender code: 1 and 2 are named, any other
/// code is "Otro".
pub open spec fn gender_label_of(gender: usize) -> Seq<char> {
    if gender == 1 {
        "Masculino"@
    } else if gender == 2 {
        "Femenino"@
    } else {
        "Otro"@
    }
}

/// The label sent for a gender code.
pub fn gender_label(gender: usize) -> (r: &'static str)
    ensures
        r@ == gender_label_of(gender),
{
    if gender == 1 {
        "Masculino"
    } else if gender == 2 {
        "Femenino"
    } else {
        "Otro"
    }
}

/// The token and plan that a saved session text holds: the text before the
/// first ':', and the plan number between it and the next ':' (or the end).
/// A text without ':' or with no known plan number there holds none.
pub open spec fn session_of(s: Seq<char>) -> Option<(Seq<char>, usize)> {
    let colon = find_from(s, ':', 0);
    if colon >= s.len() {
        None
    } else {
        let end = find_from(s, ':', colon + 1);
        match bounded_decimal(s.subrange(colon + 1, end), (PLAN_COUNT - 1) as u64) {
            Some(p) => Some((s.subrange(0, colon), p as usize)),
            None => None,
        }
    }
}

/// The digit of a plan number.
pub open spec fn plan_digit(plan: usize) -> char {
    if plan == 0 {
        '0'
    } else if plan == 1 {
        '1'
    } else if plan == 2 {
        '2'
    } else if plan == 3 {
        '3'
    } else {
        '4'
    }
}

/// The session text saved for a token and plan: `token:plan`.
pub open spec fn session_text_of(token: Seq<char>, plan: usize) -> Seq<char> {
    token + seq![':'] + seq![plan_digit(plan)]
}

proof fn lemma_find_skips(s: Seq<char>, c: char, from: int, to: int)
    requires
        0 <= from <= to < s.len(),
        s[to] == c,
        forall|i: int| from <= i < to ==> s[i] != c,
    ensures
        find_from(s, c, from) == to,
    decreases to - from,
{
    if from < to {
        lemma_find_skips(s, c, from + 1, to);
    }
}

spec fn decimal_of_digit(plan: usize) -> bool {
    crate::text::decimal_value(seq![plan_digit(plan)]) == plan as int
        && crate::text::all_digits(seq![plan_digit(plan)])
}

/// Saving a session and reading it back gives the same token and plan, for
/// any token without ':' and any known plan.
pub proof fn lemma_session_round_trip(token: Seq<char>, plan: usize)
    requires
        plan < PLAN_COUNT,
        forall|i: int| 0 <= i < token.len() ==> token[i] != ':',
    ensures
        session_of(session_text_of(token, plan)) == Some((token, plan)),
{
    let s = session_text_of(token, plan);
    let n = token.len() as int;
    assert forall|i: int| 0 <= i < n implies s[i] != ':' by {
        assert(s[i] == token[i]);
    }
    assert(s[n] == ':');
    lemma_find_skips(s, ':', 0, n);
    assert(s[n + 1] == plan_digit(plan));
    assert(find_from(s, ':', n + 2) == s.len());
    assert(find_from(s, ':', n + 1) == s.len());
    let digits = s.subrange(n + 1, s.len() as int);
    assert(digits =~= seq![plan_digit(plan)]);
    assert(digits.drop_last() =~= Seq::<char>::empty());
    assert(decimal_of_digit(plan)) by {
        reveal_with_fuel(crate::text::decimal_value, 2);
    }
    assert(s.subrange(0, n) =~= token);
}

/// The client of the service: a session and its operations.
#[derive(Debug, Clone)]
pub struct SigmaClient {
    pub http: HTTPClient,
}

impl SigmaClient {
    /// An unauthenticated client.
    pub fn new() -> (r: SigmaClient)
        ensures
            r.http.token_str is None,
            r.http.plan_id is None,
            r.http.wf(),
    {
        SigmaClient { http: HTTPClient::new() }
    }

    /// A client with the session that a saved text `token:plan` holds; none
    /// where the text holds no session.
    pub fn from_creds(credentials: String) -> (r: Option<SigmaClient>)
        ensures
            r is Some <==> session_of(credentials@) is Some,
            r matches Some(c) ==> {
                &&& c.http.wf()
                &&& c.http.token_str is Some
                &&& c.http.plan_id is Some
                &&& session_of(credentials@) == Some((c.http.token_str->0@, c.http.plan_id->0))
            },
    {
        let s = credentials.as_str();
        let n = s.unicode_len();
        let colon = find_char(s, ':', 0);
        if colon >= n {
            return None;
        }
        let end = find_char(s, ':', colon + 1);
        let plan_text = s.substring_char(colon + 1, end);
        match parse_bounded_decimal(plan_text, (PLAN_COUNT - 1) as u64) {
            Some(p) => {
                let mut client = SigmaClient::new();
                client.http.set_api_token(s.substring_char(0, colon), p as usize);
                Some(client)
            },
            None => None,
        }
    }

    /// The text that saves this client's session, `token:plan`; none without
    /// a token.
    pub fn session_text(&self) -> (r: Option<String>)
        requires
            self.http.wf(),
        ensures
            self.http.token_str is None ==> r is None,
            self.http.token_str matches Some(t) ==> (r matches Some(s) && s@ == session_text_of(
                t@,
                self.http.plan_id->0,
            )),
    {
        match &self.http.token_str {
            None => None,
            Some(t) => {
                let plan = match self.http.plan_id {
                    Some(p) => p,
                    None => 0,
                };
                let digit = if plan == 0 {
                    "0"
                } else if plan == 1 {
                    "1"
                } else if plan == 2 {
                    "2"
                } else if plan == 3 {
                    "3"
                } else {
                    "4"
                };
                proof {
                    reveal_strlit(":");
                    reveal_strlit("0");
                    reveal_strlit("1");
                    reveal_strlit("2");
                    reveal_strlit("3");
                    reveal_strlit("4");
                }
                assert(digit@ =~= seq![plan_digit(plan)]);
                let mut s = t.clone();
                s.append(":");
                s.append(digit);
                assert(s@ =~= session_text_of(t@, plan));
                Some(s)
            },
        }
    }

    /// The login request for a username and password.
    pub fn login_with_credentials(&self, username: String, password: String) -> (r: Request)
        ensures
            r.url@ == crate::http::login_url(),
            r.key is None,
            crate::json::pairs_view(r.params@) == seq![("username"@, username@), ("password"@, password@)],
    {
        self.http.login_with_credentials(username, password)
    }

    /// Applies the reply to a login: its status and the bytes of its body.
    pub fn complete_login(&mut self, status: u16, body: &[u8]) -> (r: Result<(), Error>)
        requires
            old(self).http.wf(),
        ensures
            final(self).http.wf(),
            r is Err ==> *final(self) == *old(self),
            crate::json::json_of(body@) is None ==> (r matches Err(e) && e is DeserealizationError),
            crate::json::json_of(body@) matches Some(doc) ==> {
                &&& r is Ok <==> crate::http::is_success(status) && <crate::response::LoginResponse as crate::response::JsonRecord>::decodable(doc)
                    && crate::json::small_of(doc, "plan"@)->0 < PLAN_COUNT
                &&& (r is Ok ==> (final(self).http.token_str matches Some(t) && crate::json::text_of(doc, "token"@)
                    == Some(t@)) && final(self).http.plan_id == Some(crate::json::small_of(doc, "plan"@)->0 as usize))
                &&& (!crate::http::is_success(status) ==> (r matches Err(e) ==> crate::http::error_reply(doc, e)))
                &&& (crate::http::is_success(status) ==> (r matches Err(e) ==> e is DeserealizationError))
            },
    {
        self.http.complete_login(status, body)
    }

    /// Looks up a person by document number.
    pub fn search_standard_dni(&self, dni: String) -> (r: Result<Call<DNIStandardResponse>, Error>)
        requires
            self.http.wf(),
        ensures
            self.http.prepared_call(r, "/osint/argentina/resolver/dni"@, None, seq![("dni"@, dni@)]),
    {
        self.http.get_data_from_dni(dni)
    }

    /// Lists the phone lines registered to a document number.
    pub fn search_phones_by_dni(&self, dni: String) -> (r: Result<Call<Vec<PhoneNumber>>, Error>)
        requires
            self.http.wf(),
        ensures
            self.http.prepared_call(r, "/osint/argentina/resolver/dni_celular"@, None, seq![("dni"@, dni@)]),
    {
        self.http.get_phones_from_dni(dni)
    }

    /// Lists the history of a vehicle plate.
    pub fn search_plate(&self, plate: String) -> (r: Result<Call<Vec<PlateHistory>>, Error>)
        requires
            self.http.wf(),
        ensures
            self.http.prepared_call(r, "/osint/argentina/resolver/patente"@, None, seq![("patente"@, plate@)]),
    {
        self.http.get_plate(plate)
    }

    /// Lists the vehicle history of a document number.
    pub fn search_plate_by_dni(&self, dni: String) -> (r: Result<Call<Vec<PlateHistory>>, Error>)
        requires
            self.http.wf(),
        ensures
            self.http.prepared_call(r, "/osint/argentina/resolver/patente_dni"@, None, seq![("dni"@, dni@)]),
    {
        self.http.get_plate_from_dni(dni)
    }

    /// Lists breached credentials that match a domain, address or keyword.
    pub fn search_leaks(&self, query: String) -> (r: Result<Call<Vec<BreachCredentials>>, Error>)
        requires
            self.http.wf(),
        ensures
            self.http.prepared_call(r, "/osint/argentina/search_engine/data_breach"@, None, seq![("query"@, query@)]),
    {
        self.http.get_query_data_breach(query)
    }

    /// Finds the e-mail address behind a Movistar line.
    pub fn search_movistar_email(&self, phone: String) -> (r: Result<Call<MovistarEmail>, Error>)
        requires
            self.http.wf(),
        ensures
            self.http.prepared_call(r, "/osint/argentina/resolver/movistar"@, None, seq![("num"@, phone@)]),
    {
        self.http.get_movistar_email(phone)
    }

    /// Lists the people found at an address.
    pub fn search_by_address(&self, address: String) -> (r: Result<Call<Vec<PersonaDireccion>>, Error>)
        requires
            self.http.wf(),
        ensures
            self.http.prepared_call(r, "/osint/argentina/resolver/direccion"@, None, seq![("direccion"@, address@)]),
    {
        self.http.get_people_by_address(address)
    }

    /// Lists the holders of a phone number.
    pub fn search_phone(&self, number: String) -> (r: Result<Call<Vec<PersonaFromNumero>>, Error>)
        requires
            self.http.wf(),
        ensures
            self.http.prepared_call(r, "/osint/argentina/resolver/celular"@, None, seq![("num"@, number@)]),
    {
        self.http.get_data_by_number(number)
    }

    /// Looks up the extended record of a person by document number and gender
    /// code (1 "Masculino", 2 "Femenino", any other "Otro").
    pub fn search_profesional_dni(&self, dni: String, gender: usize) -> (r: Result<
        Call<DNIProfesional>,
        Error,
    >)
        requires
            self.http.wf(),
        ensures
            self.http.prepared_call(
                r,
                "/osint/argentina/resolver/dni_two"@,
                None,
                seq![("dato"@, dni@ + ":"@ + gender_label_of(gender))],
            ),
    {
        let label = String::from_str(gender_label(gender));
        self.http.get_data_from_dni_profesional(dni, label)
    }

    /// Searches people by name, with optional extra filters (such as
    /// `provincia_nombre`, `localidad`, `edad_desde`, `edad_hasta`) sent as given.
    pub fn search_name(&self, name: String, params: Option<Vec<(String, String)>>) -> (r: Result<
        Call<Vec<PersonaNombre>>,
        Error,
    >)
        requires
            self.http.wf(),
        ensures
            self.http.prepared_call(
                r,
                "/osint/argentina/resolver/nombre"@,
                None,
                name_params(name@, params),
            ),
    {
        self.http.get_names(name, params)
    }

    /// Finds the current holder of a phone number.
    pub fn search_phone_magic(&self, number: String) -> (r: Result<
        Call<PersonaFromNumeroMagic>,
        Error,
    >)
        requires
            self.http.wf(),
        ensures
            self.http.prepared_call(
                r,
                magic_path(),
                None,
                seq![("dato"@, number@), ("tipo"@, "buscar_celular"@)],
            ),
    {
        self.http.get_data_by_number_magic(number)
    }

    /// Finds the holder of a bank account by CBU/CVU or alias.
    pub fn search_cbu(&self, cvu_or_alias: String) -> (r: Result<Call<TitularCBU>, Error>)
        requires
            self.http.wf(),
        ensures
            self.http.prepared_call(
                r,
                magic_path(),
                None,
                seq![("dato"@, cvu_or_alias@), ("tipo"@, "buscar_cbu_alias"@)],
            ),
    {
        self.http.get_data_by_cvu(cvu_or_alias)
    }

    /// Finds the holder of an e-mail address.
    pub fn search_email(&self, email: String) -> (r: Result<Call<EmailResultados>, Error>)
        requires
            self.http.wf(),
        ensures
            self.http.prepared_call(
                r,
                magic_path(),
                None,
                seq![("dato"@, email@), ("tipo"@, "buscar_email"@)],
            ),
    {
        self.http.get_data_by_email(email)
    }
}

} // verus!
