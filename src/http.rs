//! The transport layer: the session (token and plan), endpoint resolution, the
//! request envelope, and how a reply becomes a record or an error.
use vstd::prelude::*;

use crate::errors::Error;
use crate::json::{
    bool_of, encode_members, field_of, json_object_text, json_of, lookup_from, pairs_view,
    parse_json, small_of, text_of, JsonValue,
};
use crate::response::{
    BreachCredentials, DNIProfesional, DNIStandardResponse, EmailResultados, ErrorResponse,
    JsonRecord, LoginResponse, MovistarEmail, PersonaDireccion, PersonaFromNumero,
    PersonaFromNumeroMagic, PersonaNombre, PhoneNumber, PlateHistory, TitularCBU,
};

verus! {

/// The name of the request header that carries the token.
pub const KEY_HEADER: &'static str = "sigma-key";

/// The number of plans; a plan number is below it.
pub const PLAN_COUNT: usize = 5;

/// A subscription plan: it selects the path segment of every endpoint.
#[derive(Debug, Clone, Copy, PartialEq, Eq)]
pub enum Plan {
    Free,
    Profesional,
    Medium,
    Standard,
    Comunidades,
}

/// The path segment of the plan numbered `id`.
pub open spec fn plan_segment(id: int) -> Seq<char> {
    if id == 0 {
        "free"@
    } else if id == 1 {
        "profesional"@
    } else if id == 2 {
        "medium"@
    } else if id == 3 {
        "standard"@
    } else {
        "comunidades"@
    }
}

impl Plan {
    pub open spec fn spec_id(self) -> usize {
        match self {
            Plan::Free => 0,
            Plan::Profesional => 1,
            Plan::Medium => 2,
            Plan::Standard => 3,
            Plan::Comunidades => 4,
        }
    }

    /// The plan numbered `id`, if there is one.
    pub fn from_id(id: usize) -> (r: Option<Plan>)
        ensures
            r is Some <==> id < PLAN_COUNT,
            r matches Some(p) ==> p.spec_id() == id,
    {
        if id == 0 {
            Some(Plan::Free)
        } else if id == 1 {
            Some(Plan::Profesional)
        } else if id == 2 {
            Some(Plan::Medium)
        } else if id == 3 {
            Some(Plan::Standard)
        } else if id == 4 {
            Some(Plan::Comunidades)
        } else {
            None
        }
    }

    /// The plan's number.
    pub fn id(&self) -> (r: usize)
        ensures
            r == self.spec_id(),
            r < PLAN_COUNT,
    {
        match self {
            Plan::Free => 0,
            Plan::Profesional => 1,
            Plan::Medium => 2,
            Plan::Standard => 3,
            Plan::Comunidades => 4,
        }
    }

    /// The plan's path segment.
    pub fn segment(&self) -> (r: &'static str)
        ensures
            r@ == plan_segment(self.spec_id() as int),
    {
        match self {
            Plan::Free => "free",
            Plan::Profesional => "profesional",
            Plan::Medium => "medium",
            Plan::Standard => "standard",
            Plan::Comunidades => "comunidades",
        }
    }
}

/// The full URL of the endpoint `path` under the plan numbered `plan`.
pub open spec fn endpoint_url(plan: int, path: Seq<char>) -> Seq<char> {
    "https://sigma-search.io"@ + "/api/v2"@ + "/"@ + plan_segment(plan) + path
}

/// The URL of the login endpoint, outside the plan-segmented family.
pub open spec fn login_url() -> Seq<char> {
    "https://sigma-search.io"@ + "/api/sigma/client/login"@
}

/// Whether an HTTP status is a success (2xx).
pub open spec fn is_success(status: u16) -> bool {
    200 <= status < 300
}

/// What a POST to send: the URL, the token for the key header (none for a
/// login), and the parameters that form the JSON object of the body.
#[derive(Debug, Clone)]
pub struct Request {
    pub url: String,
    pub key: Option<String>,
    pub params: Vec<(String, String)>,
}

impl Request {
    /// The JSON body: one object whose members are the parameters, each a
    /// string. Where two parameters share a name the later one is sent.
    pub fn body(&self) -> (r: Vec<u8>)
        ensures
            r@ == json_object_text(pairs_view(self.params@)),
    {
        encode_members(&self.params)
    }
}

/// Whether `e` is the error that a non-success reply with body `doc` gives:
/// the service's error envelope, or a deserialization error where the body
/// does not hold one.
pub open spec fn error_reply(doc: JsonValue, e: Error) -> bool {
    match e {
        Error::ApiError(x) => x.read_from(doc),
        Error::DeserealizationError(_) => !ErrorResponse::decodable(doc),
        _ => false,
    }
}

/// Whether `r` is what a reply with `status` and the document `doc` gives
/// for an operation that returns a `T`.
pub open spec fn reply_outcome<T: JsonRecord>(status: u16, doc: JsonValue, r: Result<T, Error>) -> bool {
    if is_success(status) {
        match r {
            Ok(x) => x.read_from(doc),
            Err(e) => !T::decodable(doc) && e is DeserealizationError,
        }
    } else {
        match r {
            Ok(_) => false,
            Err(e) => error_reply(doc, e),
        }
    }
}

/// Classifies a reply whose body has been read as JSON.
pub fn interpret<T: JsonRecord>(status: u16, doc: &JsonValue) -> (r: Result<T, Error>)
    ensures
        reply_outcome(status, *doc, r),
{
    if 200 <= status && status < 300 {
        T::from_json(doc)
    } else {
        match ErrorResponse::from_json(doc) {
            Ok(e) => Err(Error::ApiError(e)),
            Err(e) => Err(e),
        }
    }
}

/// Classifies a reply: the status and the bytes of its body.
pub fn read_response<T: JsonRecord>(status: u16, body: &[u8]) -> (r: Result<T, Error>)
    ensures
        json_of(body@) matches Some(doc) ==> reply_outcome(status, doc, r),
        json_of(body@) is None ==> (r matches Err(e) && e is DeserealizationError),
{
    let doc = parse_json(body)?;
    interpret(status, &doc)
}

/// A prepared call whose reply holds a `T`.
#[derive(Debug)]
pub struct Call<T> {
    pub request: Request,
    pub reply: core::marker::PhantomData<T>,
}

impl<T: JsonRecord> Call<T> {
    pub fn new(request: Request) -> (r: Call<T>)
        ensures
            r.request == request,
    {
        Call { request, reply: core::marker::PhantomData }
    }

    /// Reads the reply to this call: its status and the bytes of its body.
    pub fn read_reply(&self, status: u16, body: &[u8]) -> (r: Result<T, Error>)
        ensures
            json_of(body@) matches Some(doc) ==> reply_outcome(status, doc, r),
            json_of(body@) is None ==> (r matches Err(e) && e is DeserealizationError),
    {
        read_response(status, body)
    }
}

/// The lookups that share the "magic" endpoint, told apart by the `tipo`
/// parameter.
#[derive(Debug, Clone, Copy, PartialEq, Eq)]
pub enum MagicLookup {
    Phone,
    CbuAlias,
    Email,
}

impl MagicLookup {
    pub open spec fn spec_tag(self) -> Seq<char> {
        match self {
            MagicLookup::Phone => "buscar_celular"@,
            MagicLookup::CbuAlias => "buscar_cbu_alias"@,
            MagicLookup::Email => "buscar_email"@,
        }
    }

    /// The value of `tipo` that selects this lookup.
    pub fn tag(&self) -> (r: &'static str)
        ensures
            r@ == self.spec_tag(),
    {
        match self {
            MagicLookup::Phone => "buscar_celular",
            MagicLookup::CbuAlias => "buscar_cbu_alias",
            MagicLookup::Email => "buscar_email",
        }
    }
}

/// The path of the endpoint that the magic lookups share.
pub open spec fn magic_path() -> Seq<char> {
    "/osint/argentina/resolver/magic"@
}

/// The parameters of a name search: the name, then the extra filters as given.
pub open spec fn name_params(name: Seq<char>, extra: Option<Vec<(String, String)>>) -> Seq<
    (Seq<char>, Seq<char>),
> {
    seq![("nombre"@, name)] + match extra {
        Some(p) => pairs_view(p@),
        None => Seq::empty(),
    }
}

/// The session and the endpoints of the service.
#[derive(Debug, Clone)]
pub struct HTTPClient {
    pub token_str: Option<String>,
    pub plan_id: Option<usize>,
}

impl HTTPClient {
    /// A stored plan is a known one, and a token never stands without a plan.
    pub open spec fn wf(self) -> bool {
        match self.plan_id {
            Some(p) => p < PLAN_COUNT,
            None => self.token_str is None,
        }
    }

    /// The plan number that a call uses: the override, else the stored one.
    pub open spec fn resolved_plan(self, plan: Option<usize>) -> int {
        match plan {
            Some(p) => p as int,
            None => self.plan_id->0 as int,
        }
    }

    /// Whether `r` is what preparing a call to `path` with `params` gives:
    /// nothing to send without a token; otherwise a POST to the resolved
    /// endpoint, with the token, carrying exactly those parameters.
    pub open spec fn prepared(
        self,
        r: Result<Request, Error>,
        path: Seq<char>,
        plan: Option<usize>,
        params: Seq<(Seq<char>, Seq<char>)>,
    ) -> bool {
        match self.token_str {
            None => r == Err::<Request, Error>(Error::NoLoginToken),
            Some(t) => r matches Ok(q) && q.url@ == endpoint_url(self.resolved_plan(plan), path)
                && q.key == Some(t) && pairs_view(q.params@) == params,
        }
    }

    pub open spec fn prepared_call<T>(
        self,
        r: Result<Call<T>, Error>,
        path: Seq<char>,
        plan: Option<usize>,
        params: Seq<(Seq<char>, Seq<char>)>,
    ) -> bool {
        self.prepared(
            match r {
                Ok(c) => Ok(c.request),
                Err(e) => Err(e),
            },
            path,
            plan,
            params,
        )
    }

    /// An unauthenticated client.
    pub fn new() -> (r: HTTPClient)
        ensures
            r.token_str is None,
            r.plan_id is None,
            r.wf(),
    {
        HTTPClient { token_str: None, plan_id: None }
    }

    /// Installs a token and plan obtained earlier.
    pub fn set_api_token(&mut self, token_str: &str, plan_id: usize)
        requires
            plan_id < PLAN_COUNT,
        ensures
            final(self).token_str matches Some(t) && t@ == token_str@,
            final(self).plan_id == Some(plan_id),
            final(self).wf(),
    {
        self.token_str = Some(String::from_str(token_str));
        self.plan_id = Some(plan_id);
    }

    /// The full URL of `path`, under the plan override or else the stored plan.
    pub fn get_url(&self, path: &str, plan: Option<usize>) -> (r: String)
        requires
            self.wf(),
            plan matches Some(p) ==> p < PLAN_COUNT,
            plan is None ==> self.plan_id is Some,
        ensures
            r@ == endpoint_url(self.resolved_plan(plan), path@),
    {
        let id = match plan {
            Some(p) => p,
            None => match self.plan_id {
                Some(p) => p,
                None => 0,
            },
        };
        let segment = match Plan::from_id(id) {
            Some(p) => p.segment(),
            None => "free",
        };
        let mut url = String::from_str("https://sigma-search.io");
        url.append("/api/v2");
        url.append("/");
        url.append(segment);
        url.append(path);
        url
    }

    /// Prepares an authenticated POST of `data` to the full URL `endpoint`.
    pub fn request(&self, endpoint: String, data: Vec<(String, String)>) -> (r: Result<
        Request,
        Error,
    >)
        ensures
            self.token_str is None ==> r == Err::<Request, Error>(Error::NoLoginToken),
            self.token_str matches Some(t) ==> r matches Ok(q) && q.url == endpoint && q.key
                == Some(t) && q.params == data,
    {
        match &self.token_str {
            None => Err(Error::NoLoginToken),
            Some(t) => Ok(Request { url: endpoint, key: Some(t.clone()), params: data }),
        }
    }

    /// Prepares an authenticated POST of `data` to the endpoint `path`, under
    /// the plan override or else the stored plan. Without a token nothing is
    /// prepared.
    pub fn send(&self, path: &str, plan: Option<usize>, data: Vec<(String, String)>) -> (r: Result<
        Request,
        Error,
    >)
        requires
            self.wf(),
            plan matches Some(p) ==> p < PLAN_COUNT,
        ensures
            self.prepared(r, path@, plan, pairs_view(data@)),
    {
        if self.token_str.is_none() {
            return Err(Error::NoLoginToken);
        }
        let url = self.get_url(path, plan);
        self.request(url, data)
    }

    /// The login request for a username and password; it carries no token.
    pub fn login_with_credentials(&self, username: String, password: String) -> (r: Request)
        ensures
            r.url@ == login_url(),
            r.key is None,
            pairs_view(r.params@) == seq![("username"@, username@), ("password"@, password@)],
    {
        let mut url = String::from_str("https://sigma-search.io");
        url.append("/api/sigma/client/login");
        let params = vec![
            (String::from_str("username"), username),
            (String::from_str("password"), password),
        ];
        assert(pairs_view(params@) =~= seq![("username"@, username@), ("password"@, password@)]);
        Request { url, key: None, params }
    }

    /// Applies the reply to a login, already read as JSON: on success the
    /// token and plan are stored; on failure the session is unchanged. A
    /// plan number outside the known plans is refused as a deserialization
    /// error, since no endpoint could be resolved with it.
    pub fn accept_login(&mut self, status: u16, doc: &JsonValue) -> (r: Result<(), Error>)
        requires
            old(self).wf(),
        ensures
            final(self).wf(),
            r is Ok <==> is_success(status) && LoginResponse::decodable(*doc) && small_of(
                *doc,
                "plan"@,
            )->0 < PLAN_COUNT,
            r is Ok ==> (final(self).token_str matches Some(t) && text_of(*doc, "token"@) == Some(
                t@,
            )) && final(self).plan_id == Some(small_of(*doc, "plan"@)->0 as usize),
            r is Err ==> *final(self) == *old(self),
            !is_success(status) ==> (r matches Err(e) ==> error_reply(*doc, e)),
            is_success(status) ==> (r matches Err(e) ==> e is DeserealizationError),
    {
        let reply: LoginResponse = interpret(status, doc)?;
        if (reply.plan as usize) < PLAN_COUNT {
            self.token_str = Some(reply.token);
            self.plan_id = Some(reply.plan as usize);
            Ok(())
        } else {
            Err(Error::DeserealizationError(String::from_str("unknown plan")))
        }
    }

    /// Applies the reply to a login: its status and the bytes of its body.
    pub fn complete_login(&mut self, status: u16, body: &[u8]) -> (r: Result<(), Error>)
        requires
            old(self).wf(),
        ensures
            final(self).wf(),
            r is Err ==> *final(self) == *old(self),
            json_of(body@) is None ==> (r matches Err(e) && e is DeserealizationError),
            json_of(body@) matches Some(doc) ==> {
                &&& r is Ok <==> is_success(status) && LoginResponse::decodable(doc) && small_of(
                    doc,
                    "plan"@,
                )->0 < PLAN_COUNT
                &&& (r is Ok ==> (final(self).token_str matches Some(t) && text_of(doc, "token"@)
                    == Some(t@)) && final(self).plan_id == Some(small_of(doc, "plan"@)->0 as usize))
                &&& (!is_success(status) ==> (r matches Err(e) ==> error_reply(doc, e)))
                &&& (is_success(status) ==> (r matches Err(e) ==> e is DeserealizationError))
            },
    {
        let doc = parse_json(body)?;
        self.accept_login(status, &doc)
    }

    /// Looks up a person by document number.
    pub fn get_data_from_dni(&self, dni: String) -> (r: Result<Call<DNIStandardResponse>, Error>)
        requires
            self.wf(),
        ensures
            self.prepared_call(r, "/osint/argentina/resolver/dni"@, None, seq![("dni"@, dni@)]),
    {
        let ghost v = dni@;
        let data = vec![(String::from_str("dni"), dni)];
        assert(pairs_view(data@) =~= seq![("dni"@, v)]);
        let request = self.send("/osint/argentina/resolver/dni", None, data)?;
        Ok(Call::new(request))
    }

    /// Lists the phone lines registered to a document number.
    pub fn get_phones_from_dni(&self, dni: String) -> (r: Result<Call<Vec<PhoneNumber>>, Error>)
        requires
            self.wf(),
        ensures
            self.prepared_call(r, "/osint/argentina/resolver/dni_celular"@, None, seq![("dni"@, dni@)]),
    {
        let ghost v = dni@;
        let data = vec![(String::from_str("dni"), dni)];
        assert(pairs_view(data@) =~= seq![("dni"@, v)]);
        let request = self.send("/osint/argentina/resolver/dni_celular", None, data)?;
        Ok(Call::new(request))
    }

    /// Lists the history of a vehicle plate.
    pub fn get_plate(&self, plate: String) -> (r: Result<Call<Vec<PlateHistory>>, Error>)
        requires
            self.wf(),
        ensures
            self.prepared_call(r, "/osint/argentina/resolver/patente"@, None, seq![("patente"@, plate@)]),
    {
        let ghost v = plate@;
        let data = vec![(String::from_str("patente"), plate)];
        assert(pairs_view(data@) =~= seq![("patente"@, v)]);
        let request = self.send("/osint/argentina/resolver/patente", None, data)?;
        Ok(Call::new(request))
    }

    /// Lists the vehicle history of a document number.
    pub fn get_plate_from_dni(&self, dni: String) -> (r: Result<Call<Vec<PlateHistory>>, Error>)
        requires
            self.wf(),
        ensures
            self.prepared_call(r, "/osint/argentina/resolver/patente_dni"@, None, seq![("dni"@, dni@)]),
    {
        let ghost v = dni@;
        let data = vec![(String::from_str("dni"), dni)];
        assert(pairs_view(data@) =~= seq![("dni"@, v)]);
        let request = self.send("/osint/argentina/resolver/patente_dni", None, data)?;
        Ok(Call::new(request))
    }

    /// Lists breached credentials that match a domain, address or keyword.
    pub fn get_query_data_breach(&self, query: String) -> (r: Result<Call<Vec<BreachCredentials>>, Error>)
        requires
            self.wf(),
        ensures
            self.prepared_call(r, "/osint/argentina/search_engine/data_breach"@, None, seq![("query"@, query@)]),
    {
        let ghost v = query@;
        let data = vec![(String::from_str("query"), query)];
        assert(pairs_view(data@) =~= seq![("query"@, v)]);
        let request = self.send("/osint/argentina/search_engine/data_breach", None, data)?;
        Ok(Call::new(request))
    }

    /// Finds the e-mail address behind a Movistar line.
    pub fn get_movistar_email(&self, phone: String) -> (r: Result<Call<MovistarEmail>, Error>)
        requires
            self.wf(),
        ensures
            self.prepared_call(r, "/osint/argentina/resolver/movistar"@, None, seq![("num"@, phone@)]),
    {
        let ghost v = phone@;
        let data = vec![(String::from_str("num"), phone)];
        assert(pairs_view(data@) =~= seq![("num"@, v)]);
        let request = self.send("/osint/argentina/resolver/movistar", None, data)?;
        Ok(Call::new(request))
    }

    /// Lists the people found at an address.
    pub fn get_people_by_address(&self, address: String) -> (r: Result<Call<Vec<PersonaDireccion>>, Error>)
        requires
            self.wf(),
        ensures
            self.prepared_call(r, "/osint/argentina/resolver/direccion"@, None, seq![("direccion"@, address@)]),
    {
        let ghost v = address@;
        let data = vec![(String::from_str("direccion"), address)];
        assert(pairs_view(data@) =~= seq![("direccion"@, v)]);
        let request = self.send("/osint/argentina/resolver/direccion", None, data)?;
        Ok(Call::new(request))
    }

    /// Lists the holders of a phone number.
    pub fn get_data_by_number(&self, number: String) -> (r: Result<Call<Vec<PersonaFromNumero>>, Error>)
        requires
            self.wf(),
        ensures
            self.prepared_call(r, "/osint/argentina/resolver/celular"@, None, seq![("num"@, number@)]),
    {
        let ghost v = number@;
        let data = vec![(String::from_str("num"), number)];
        assert(pairs_view(data@) =~= seq![("num"@, v)]);
        let request = self.send("/osint/argentina/resolver/celular", None, data)?;
        Ok(Call::new(request))
    }

    /// Looks up the extended record of a person by document number and gender
    /// label; both travel in one `dato` parameter as `dni:gender`.
    pub fn get_data_from_dni_profesional(&self, dni: String, gender: String) -> (r: Result<
        Call<DNIProfesional>,
        Error,
    >)
        requires
            self.wf(),
        ensures
            self.prepared_call(
                r,
                "/osint/argentina/resolver/dni_two"@,
                None,
                seq![("dato"@, dni@ + ":"@ + gender@)],
            ),
    {
        let mut dato = dni;
        dato.append(":");
        dato.append(gender.as_str());
        let ghost v = dato@;
        let data = vec![(String::from_str("dato"), dato)];
        assert(pairs_view(data@) =~= seq![("dato"@, v)]);
        let request = self.send("/osint/argentina/resolver/dni_two", None, data)?;
        Ok(Call::new(request))
    }

    /// Searches people by name; the extra filters, when given, are sent as
    /// they are, after the name.
    pub fn get_names(&self, name: String, parameters: Option<Vec<(String, String)>>) -> (r: Result<
        Call<Vec<PersonaNombre>>,
        Error,
    >)
        requires
            self.wf(),
        ensures
            self.prepared_call(
                r,
                "/osint/argentina/resolver/nombre"@,
                None,
                name_params(name@, parameters),
            ),
    {
        let ghost want = name_params(name@, parameters);
        let mut data = vec![(String::from_str("nombre"), name)];
        match parameters {
            Some(p) => {
                let mut p = p;
                let ghost before = data@;
                let ghost added = p@;
                data.append(&mut p);
                assert(data@ =~= before + added);
                assert(pairs_view(data@) =~= pairs_view(before) + pairs_view(added));
            },
            None => {},
        }
        assert(pairs_view(data@) =~= want);
        let request = self.send("/osint/argentina/resolver/nombre", None, data)?;
        Ok(Call::new(request))
    }

    /// A lookup on the shared "magic" endpoint: the value in `dato`, the
    /// lookup's tag in `tipo`.
    pub fn lookup_magic<T: JsonRecord>(&self, dato: String, kind: MagicLookup) -> (r: Result<
        Call<T>,
        Error,
    >)
        requires
            self.wf(),
        ensures
            self.prepared_call(
                r,
                magic_path(),
                None,
                seq![("dato"@, dato@), ("tipo"@, kind.spec_tag())],
            ),
    {
        let ghost v = dato@;
        let data = vec![
            (String::from_str("dato"), dato),
            (String::from_str("tipo"), String::from_str(kind.tag())),
        ];
        assert(pairs_view(data@) =~= seq![("dato"@, v), ("tipo"@, kind.spec_tag())]);
        let request = self.send("/osint/argentina/resolver/magic", None, data)?;
        Ok(Call::new(request))
    }

    /// Finds the current holder of a phone number.
    pub fn get_data_by_number_magic(&self, number: String) -> (r: Result<
        Call<PersonaFromNumeroMagic>,
        Error,
    >)
        requires
            self.wf(),
        ensures
            self.prepared_call(
                r,
                magic_path(),
                None,
                seq![("dato"@, number@), ("tipo"@, "buscar_celular"@)],
            ),
    {
        self.lookup_magic(number, MagicLookup::Phone)
    }

    /// Finds the holder of a bank account by CBU/CVU or alias.
    pub fn get_data_by_cvu(&self, cvu_alias: String) -> (r: Result<Call<TitularCBU>, Error>)
        requires
            self.wf(),
        ensures
            self.prepared_call(
                r,
                magic_path(),
                None,
                seq![("dato"@, cvu_alias@), ("tipo"@, "buscar_cbu_alias"@)],
            ),
    {
        self.lookup_magic(cvu_alias, MagicLookup::CbuAlias)
    }

    /// Finds the holder of an e-mail address.
    pub fn get_data_by_email(&self, email: String) -> (r: Result<Call<EmailResultados>, Error>)
        requires
            self.wf(),
        ensures
            self.prepared_call(
                r,
                magic_path(),
                None,
                seq![("dato"@, email@), ("tipo"@, "buscar_email"@)],
            ),
    {
        self.lookup_magic(email, MagicLookup::Email)
    }
}

/// Without a token, every operation yields `NoLoginToken` and has nothing to
/// send: no request exists to go on the network.
pub proof fn lemma_unauthenticated_sends_nothing<T>(
    client: HTTPClient,
    r: Result<Call<T>, Error>,
    path: Seq<char>,
    plan: Option<usize>,
    params: Seq<(Seq<char>, Seq<char>)>,
)
    requires
        client.token_str is None,
        client.prepared_call(r, path, plan, params),
    ensures
        r matches Err(e) && e == Error::NoLoginToken,
{
}

/// A non-success reply whose body is `{"error": b, "mensaje": m}` yields an
/// API error that carries `m` (and `b`), whatever the operation.
pub proof fn lemma_error_envelope_message<T: JsonRecord>(
    status: u16,
    doc: JsonValue,
    r: Result<T, Error>,
)
    requires
        !is_success(status),
        bool_of(doc, "error"@) is Some,
        text_of(doc, "mensaje"@) is Some,
        reply_outcome(status, doc, r),
    ensures
        r matches Err(Error::ApiError(e)) && Some(e.message@) == text_of(doc, "mensaje"@) && Some(
            e.error,
        ) == bool_of(doc, "error"@),
{
}

/// A success reply that lacks a required member of the record does not read:
/// it yields a deserialization error (shown for a document-number lookup,
/// whose `doc` member is required).
pub proof fn lemma_missing_required_member(
    status: u16,
    doc: JsonValue,
    r: Result<DNIStandardResponse, Error>,
)
    requires
        is_success(status),
        field_of(doc, "doc"@) is None,
        reply_outcome(status, doc, r),
    ensures
        r matches Err(e) && e is DeserealizationError,
{
}

/// A success reply whose object lacks every optional member still reads: each
/// optional member is absent (shown for plate history, all of whose members
/// are optional).
pub proof fn lemma_absent_optional_members(
    status: u16,
    doc: JsonValue,
    r: Result<PlateHistory, Error>,
)
    requires
        is_success(status),
        doc matches JsonValue::Object(entries) && entries@.len() == 0,
        reply_outcome(status, doc, r),
    ensures
        r matches Ok(x) && x.patente is None && x.documento is None && x.vehiculo is None
            && x.marca is None && x.anio is None && x.titular is None && x.porcentaje is None
            && x.calle is None && x.altura is None && x.piso is None && x.depto is None
            && x.codigo_postal is None && x.localidad is None && x.transferencia is None,
{
    assert forall|k: Seq<char>| field_of(doc, k) is None by {
        assert(lookup_from(doc->Object_0@, k, 0) is None);
    }
}

/// With the required members present as strings and the optional postal code
/// absent, a document-number reply still reads, with no postal code.
pub proof fn lemma_absent_optional_postal_code(
    status: u16,
    doc: JsonValue,
    r: Result<DNIStandardResponse, Error>,
)
    requires
        is_success(status),
        text_of(doc, "doc"@) is Some,
        text_of(doc, "apellido"@) is Some,
        text_of(doc, "nombres"@) is Some,
        text_of(doc, "calle"@) is Some,
        text_of(doc, "seccion"@) is Some,
        text_of(doc, "circuito"@) is Some,
        text_of(doc, "tipo_doc"@) is Some,
        text_of(doc, "localidad"@) is Some,
        text_of(doc, "provincia"@) is Some,
        field_of(doc, "codigo_postal"@) is None,
        reply_outcome(status, doc, r),
    ensures
        r matches Ok(x) && x.codigo_postal is None,
{
}

} // verus!
