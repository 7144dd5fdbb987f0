//! The records that the service returns, and how each is read from JSON.
//!
//! Members that a record does not name are ignored. A required member must be
//! present with the right type; an optional one may be absent or null.
use vstd::prelude::*;

use crate::errors::Error;
use crate::json::{
    bool_field, bool_of, field, field_of, opt_small_field, opt_small_of, opt_text_field,
    opt_text_of, opt_view, small_field, small_of, text_field, text_of, JsonValue,
};

verus! {

/// A record that can be read from a JSON document.
pub trait JsonRecord: Sized {
    /// Whether `v` holds a record of this shape.
    spec fn decodable(v: JsonValue) -> bool;

    /// Whether `self` is the record that `v` holds.
    spec fn read_from(self, v: JsonValue) -> bool;

    /// Reads the record that `v` holds.
    fn from_json(v: &JsonValue) -> (r: Result<Self, Error>)
        ensures
            r is Ok <==> Self::decodable(*v),
            r matches Ok(x) ==> x.read_from(*v),
            r matches Err(e) ==> e is DeserealizationError,
    ;
}

/// Whether `v` is an array of which each item holds a `T`.
pub open spec fn list_decodable<T: JsonRecord>(v: JsonValue) -> bool {
    match v {
        JsonValue::Array(items) => forall|i: int|
            0 <= i < items@.len() ==> T::decodable(#[trigger] items@[i]),
        _ => false,
    }
}

/// Whether `l` holds, in order, the records that the items of the array `v` hold.
pub open spec fn list_read<T: JsonRecord>(l: Seq<T>, v: JsonValue) -> bool {
    match v {
        JsonValue::Array(items) => {
            &&& l.len() == items@.len()
            &&& forall|i: int| 0 <= i < items@.len() ==> #[trigger] l[i].read_from(items@[i])
        },
        _ => false,
    }
}

/// A list of records is a JSON array of them.
impl<T: JsonRecord> JsonRecord for Vec<T> {
    open spec fn decodable(v: JsonValue) -> bool {
        list_decodable::<T>(v)
    }

    open spec fn read_from(self, v: JsonValue) -> bool {
        list_read(self@, v)
    }

    fn from_json(v: &JsonValue) -> (r: Result<Self, Error>) {
        list_from_json(v)
    }
}

/// Reads an array of records, item by item.
pub fn list_from_json<T: JsonRecord>(v: &JsonValue) -> (r: Result<Vec<T>, Error>)
    ensures
        r is Ok <==> list_decodable::<T>(*v),
        r matches Ok(l) ==> list_read(l@, *v),
        r matches Err(e) ==> e is DeserealizationError,
{
    match v {
        JsonValue::Array(items) => {
            let mut out: Vec<T> = Vec::new();
            let mut i: usize = 0;
            while i < items.len()
                invariant
                    *v == JsonValue::Array(*items),
                    i <= items@.len(),
                    out@.len() == i,
                    forall|j: int| 0 <= j < i ==> T::decodable(#[trigger] items@[j]),
                    forall|j: int| 0 <= j < i ==> #[trigger] out@[j].read_from(items@[j]),
                decreases items@.len() - i,
            {
                match T::from_json(&items[i]) {
                    Ok(x) => out.push(x),
                    Err(e) => {
                        let ghost all: Vec<JsonValue> = *items;
                        assert(!list_decodable::<T>(JsonValue::Array(all))) by {
                            assert(JsonValue::Array(all)->Array_0 == all);
                            assert(0 <= i < all@.len());
                            assert(!T::decodable(all@[i as int]));
                        }
                        assert(!list_decodable::<T>(*v));
                        return Err(e);
                    },
                }
                i = i + 1;
            }
            assert(list_read(out@, *v));
            Ok(out)
        },
        _ => Err(Error::DeserealizationError(String::from_str("expected an array"))),
    }
}

fn expect_object(v: &JsonValue) -> (r: Result<(), Error>)
    ensures
        r is Ok <==> *v is Object,
        r matches Err(e) ==> e is DeserealizationError,
{
    match v {
        JsonValue::Object(_) => Ok(()),
        _ => Err(Error::DeserealizationError(String::from_str("expected an object"))),
    }
}

/// An optional list member: absent or null, or a list of records.
pub open spec fn opt_list_decodable<T: JsonRecord>(v: JsonValue, key: Seq<char>) -> bool {
    match field_of(v, key) {
        None => true,
        Some(JsonValue::Null) => true,
        Some(x) => <Vec<T> as JsonRecord>::decodable(x),
    }
}

pub open spec fn opt_list_read<T: JsonRecord>(v: JsonValue, key: Seq<char>, l: Option<Vec<T>>) -> bool {
    match field_of(v, key) {
        None => l is None,
        Some(JsonValue::Null) => l is None,
        Some(x) => l matches Some(items) && items.read_from(x),
    }
}

/// Reads the optional list member `key`.
pub fn opt_list_field<T: JsonRecord>(v: &JsonValue, key: &str) -> (r: Result<Option<Vec<T>>, Error>)
    ensures
        r is Ok <==> opt_list_decodable::<T>(*v, key@),
        r matches Ok(l) ==> opt_list_read(*v, key@, l),
        r matches Err(e) ==> e is DeserealizationError,
{
    match field(v, key) {
        None => Ok(None),
        Some(JsonValue::Null) => Ok(None),
        Some(x) => {
            let l = <Vec<T> as JsonRecord>::from_json(x)?;
            Ok(Some(l))
        },
    }
}

/// The body of a non-success reply.
#[derive(Debug, Clone, PartialEq, Eq)]
pub struct ErrorResponse {
    pub error: bool,
    /// Wire name `mensaje`.
    pub message: String,
}

impl JsonRecord for ErrorResponse {
    open spec fn decodable(v: JsonValue) -> bool {
        &&& v is Object
        &&& bool_of(v, "error"@) is Some
        &&& text_of(v, "mensaje"@) is Some
    }

    open spec fn read_from(self, v: JsonValue) -> bool {
        &&& v is Object
        &&& bool_of(v, "error"@) == Some(self.error)
        &&& text_of(v, "mensaje"@) == Some(self.message@)
    }

    fn from_json(v: &JsonValue) -> (r: Result<Self, Error>) {
        expect_object(v)?;
        let error = bool_field(v, "error")?;
        let message = text_field(v, "mensaje")?;
        Ok(ErrorResponse { error, message })
    }
}

/// The reply to a login: a token and the plan number.
#[derive(Debug, Clone, PartialEq, Eq)]
pub struct LoginResponse {
    pub token: String,
    pub plan: u8,
}

impl JsonRecord for LoginResponse {
    open spec fn decodable(v: JsonValue) -> bool {
        &&& v is Object
        &&& text_of(v, "token"@) is Some
        &&& small_of(v, "plan"@) is Some
    }

    open spec fn read_from(self, v: JsonValue) -> bool {
        &&& v is Object
        &&& text_of(v, "token"@) == Some(self.token@)
        &&& small_of(v, "plan"@) == Some(self.plan)
    }

    fn from_json(v: &JsonValue) -> (r: Result<Self, Error>) {
        expect_object(v)?;
        let token = text_field(v, "token")?;
        let plan = small_field(v, "plan")?;
        Ok(LoginResponse { token, plan })
    }
}

/// A person found by document number.
#[derive(Debug, Clone, PartialEq, Eq)]
pub struct DNIStandardResponse {
    /// Wire name `doc`.
    pub documento: String,
    pub apellido: String,
    pub nombres: String,
    pub calle: String,
    pub seccion: String,
    pub circuito: String,
    pub tipo_doc: String,
    pub localidad: String,
    pub provincia: String,
    pub codigo_postal: Option<String>,
}

impl JsonRecord for DNIStandardResponse {
    open spec fn decodable(v: JsonValue) -> bool {
        &&& v is Object
        &&& text_of(v, "doc"@) is Some
        &&& text_of(v, "apellido"@) is Some
        &&& text_of(v, "nombres"@) is Some
        &&& text_of(v, "calle"@) is Some
        &&& text_of(v, "seccion"@) is Some
        &&& text_of(v, "circuito"@) is Some
        &&& text_of(v, "tipo_doc"@) is Some
        &&& text_of(v, "localidad"@) is Some
        &&& text_of(v, "provincia"@) is Some
        &&& opt_text_of(v, "codigo_postal"@) is Some
    }

    open spec fn read_from(self, v: JsonValue) -> bool {
        &&& v is Object
        &&& text_of(v, "doc"@) == Some(self.documento@)
        &&& text_of(v, "apellido"@) == Some(self.apellido@)
        &&& text_of(v, "nombres"@) == Some(self.nombres@)
        &&& text_of(v, "calle"@) == Some(self.calle@)
        &&& text_of(v, "seccion"@) == Some(self.seccion@)
        &&& text_of(v, "circuito"@) == Some(self.circuito@)
        &&& text_of(v, "tipo_doc"@) == Some(self.tipo_doc@)
        &&& text_of(v, "localidad"@) == Some(self.localidad@)
        &&& text_of(v, "provincia"@) == Some(self.provincia@)
        &&& opt_text_of(v, "codigo_postal"@) == Some(opt_view(self.codigo_postal))
    }

    fn from_json(v: &JsonValue) -> (r: Result<Self, Error>) {
        expect_object(v)?;
        let documento = text_field(v, "doc")?;
        let apellido = text_field(v, "apellido")?;
        let nombres = text_field(v, "nombres")?;
        let calle = text_field(v, "calle")?;
        let seccion = text_field(v, "seccion")?;
        let circuito = text_field(v, "circuito")?;
        let tipo_doc = text_field(v, "tipo_doc")?;
        let localidad = text_field(v, "localidad")?;
        let provincia = text_field(v, "provincia")?;
        let codigo_postal = opt_text_field(v, "codigo_postal")?;
        Ok(DNIStandardResponse {
            documento,
            apellido,
            nombres,
            calle,
            seccion,
            circuito,
            tipo_doc,
            localidad,
            provincia,
            codigo_postal,
        })
    }
}

/// A phone line registered to a document number.
#[derive(Debug, Clone, PartialEq, Eq)]
pub struct PhoneNumber {
    /// Wire name `doc`.
    pub documento: String,
    pub numero: String,
    pub nombre: String,
    pub localidad: String,
    pub provincia: String,
    pub codigo_postal: String,
    pub empresa: String,
}

impl JsonRecord for PhoneNumber {
    open spec fn decodable(v: JsonValue) -> bool {
        &&& v is Object
        &&& text_of(v, "doc"@) is Some
        &&& text_of(v, "numero"@) is Some
        &&& text_of(v, "nombre"@) is Some
        &&& text_of(v, "localidad"@) is Some
        &&& text_of(v, "provincia"@) is Some
        &&& text_of(v, "codigo_postal"@) is Some
        &&& text_of(v, "empresa"@) is Some
    }

    open spec fn read_from(self, v: JsonValue) -> bool {
        &&& v is Object
        &&& text_of(v, "doc"@) == Some(self.documento@)
        &&& text_of(v, "numero"@) == Some(self.numero@)
        &&& text_of(v, "nombre"@) == Some(self.nombre@)
        &&& text_of(v, "localidad"@) == Some(self.localidad@)
        &&& text_of(v, "provincia"@) == Some(self.provincia@)
        &&& text_of(v, "codigo_postal"@) == Some(self.codigo_postal@)
        &&& text_of(v, "empresa"@) == Some(self.empresa@)
    }

    fn from_json(v: &JsonValue) -> (r: Result<Self, Error>) {
        expect_object(v)?;
        let documento = text_field(v, "doc")?;
        let numero = text_field(v, "numero")?;
        let nombre = text_field(v, "nombre")?;
        let localidad = text_field(v, "localidad")?;
        let provincia = text_field(v, "provincia")?;
        let codigo_postal = text_field(v, "codigo_postal")?;
        let empresa = text_field(v, "empresa")?;
        Ok(PhoneNumber {
            documento,
            numero,
            nombre,
            localidad,
            provincia,
            codigo_postal,
            empresa,
        })
    }
}

/// One entry of a vehicle plate's history.
#[derive(Debug, Clone, PartialEq, Eq)]
pub struct PlateHistory {
    pub patente: Option<String>,
    pub documento: Option<String>,
    pub vehiculo: Option<String>,
    pub marca: Option<String>,
    pub anio: Option<String>,
    pub titular: Option<String>,
    pub porcentaje: Option<String>,
    pub calle: Option<String>,
    pub altura: Option<String>,
    pub piso: Option<String>,
    pub depto: Option<String>,
    pub codigo_postal: Option<String>,
    pub localidad: Option<String>,
    pub transferencia: Option<String>,
}

impl JsonRecord for PlateHistory {
    open spec fn decodable(v: JsonValue) -> bool {
        &&& v is Object
        &&& opt_text_of(v, "patente"@) is Some
        &&& opt_text_of(v, "documento"@) is Some
        &&& opt_text_of(v, "vehiculo"@) is Some
        &&& opt_text_of(v, "marca"@) is Some
        &&& opt_text_of(v, "anio"@) is Some
        &&& opt_text_of(v, "titular"@) is Some
        &&& opt_text_of(v, "porcentaje"@) is Some
        &&& opt_text_of(v, "calle"@) is Some
        &&& opt_text_of(v, "altura"@) is Some
        &&& opt_text_of(v, "piso"@) is Some
        &&& opt_text_of(v, "depto"@) is Some
        &&& opt_text_of(v, "codigo_postal"@) is Some
        &&& opt_text_of(v, "localidad"@) is Some
        &&& opt_text_of(v, "transferencia"@) is Some
    }

    open spec fn read_from(self, v: JsonValue) -> bool {
        &&& v is Object
        &&& opt_text_of(v, "patente"@) == Some(opt_view(self.patente))
        &&& opt_text_of(v, "documento"@) == Some(opt_view(self.documento))
        &&& opt_text_of(v, "vehiculo"@) == Some(opt_view(self.vehiculo))
        &&& opt_text_of(v, "marca"@) == Some(opt_view(self.marca))
        &&& opt_text_of(v, "anio"@) == Some(opt_view(self.anio))
        &&& opt_text_of(v, "titular"@) == Some(opt_view(self.titular))
        &&& opt_text_of(v, "porcentaje"@) == Some(opt_view(self.porcentaje))
        &&& opt_text_of(v, "calle"@) == Some(opt_view(self.calle))
        &&& opt_text_of(v, "altura"@) == Some(opt_view(self.altura))
        &&& opt_text_of(v, "piso"@) == Some(opt_view(self.piso))
        &&& opt_text_of(v, "depto"@) == Some(opt_view(self.depto))
        &&& opt_text_of(v, "codigo_postal"@) == Some(opt_view(self.codigo_postal))
        &&& opt_text_of(v, "localidad"@) == Some(opt_view(self.localidad))
        &&& opt_text_of(v, "transferencia"@) == Some(opt_view(self.transferencia))
    }

    fn from_json(v: &JsonValue) -> (r: Result<Self, Error>) {
        expect_object(v)?;
        let patente = opt_text_field(v, "patente")?;
        let documento = opt_text_field(v, "documento")?;
        let vehiculo = opt_text_field(v, "vehiculo")?;
        let marca = opt_text_field(v, "marca")?;
        let anio = opt_text_field(v, "anio")?;
        let titular = opt_text_field(v, "titular")?;
        let porcentaje = opt_text_field(v, "porcentaje")?;
        let calle = opt_text_field(v, "calle")?;
        let altura = opt_text_field(v, "altura")?;
        let piso = opt_text_field(v, "piso")?;
        let depto = opt_text_field(v, "depto")?;
        let codigo_postal = opt_text_field(v, "codigo_postal")?;
        let localidad = opt_text_field(v, "localidad")?;
        let transferencia = opt_text_field(v, "transferencia")?;
        Ok(PlateHistory {
            patente,
            documento,
            vehiculo,
            marca,
            anio,
            titular,
            porcentaje,
            calle,
            altura,
            piso,
            depto,
            codigo_postal,
            localidad,
            transferencia,
        })
    }
}

/// A credential pair found in a data breach.
#[derive(Debug, Clone, PartialEq, Eq)]
pub struct BreachCredentials {
    /// Wire name `usuario`.
    pub username: String,
    pub password: String,
}

impl JsonRecord for BreachCredentials {
    open spec fn decodable(v: JsonValue) -> bool {
        &&& v is Object
        &&& text_of(v, "usuario"@) is Some
        &&& text_of(v, "password"@) is Some
    }

    open spec fn read_from(self, v: JsonValue) -> bool {
        &&& v is Object
        &&& text_of(v, "usuario"@) == Some(self.username@)
        &&& text_of(v, "password"@) == Some(self.password@)
    }

    fn from_json(v: &JsonValue) -> (r: Result<Self, Error>) {
        expect_object(v)?;
        let username = text_field(v, "usuario")?;
        let password = text_field(v, "password")?;
        Ok(BreachCredentials { username, password })
    }
}

/// A health-coverage entry of a person.
#[derive(Debug, Clone, PartialEq, Eq)]
pub struct ObraSocial {
    pub cobertura: Option<String>,
    pub nombre: Option<String>,
    /// Wire name `dni`.
    pub documento: Option<String>,
    pub sexo: Option<String>,
}

impl JsonRecord for ObraSocial {
    open spec fn decodable(v: JsonValue) -> bool {
        &&& v is Object
        &&& opt_text_of(v, "cobertura"@) is Some
        &&& opt_text_of(v, "nombre"@) is Some
        &&& opt_text_of(v, "dni"@) is Some
        &&& opt_text_of(v, "sexo"@) is Some
    }

    open spec fn read_from(self, v: JsonValue) -> bool {
        &&& v is Object
        &&& opt_text_of(v, "cobertura"@) == Some(opt_view(self.cobertura))
        &&& opt_text_of(v, "nombre"@) == Some(opt_view(self.nombre))
        &&& opt_text_of(v, "dni"@) == Some(opt_view(self.documento))
        &&& opt_text_of(v, "sexo"@) == Some(opt_view(self.sexo))
    }

    fn from_json(v: &JsonValue) -> (r: Result<Self, Error>) {
        expect_object(v)?;
        let cobertura = opt_text_field(v, "cobertura")?;
        let nombre = opt_text_field(v, "nombre")?;
        let documento = opt_text_field(v, "dni")?;
        let sexo = opt_text_field(v, "sexo")?;
        Ok(ObraSocial { cobertura, nombre, documento, sexo })
    }
}

/// The extended record of a person found by document number and gender.
#[derive(Debug, Clone, PartialEq, Eq)]
pub struct DNIProfesional {
    pub emision: Option<String>,
    pub apellido: Option<String>,
    pub nombres: Option<String>,
    pub cuil: Option<String>,
    pub calle: Option<String>,
    pub numero: Option<String>,
    pub piso: Option<String>,
    pub departamento: Option<String>,
    pub barrio: Option<String>,
    pub monoblock: Option<String>,
    pub ciudad: Option<String>,
    pub municipio: Option<String>,
    pub provincia: Option<String>,
    pub pais: Option<String>,
    pub foto: Option<String>,
    pub tramite: Option<String>,
    pub documento: Option<String>,
    pub fallecido: Option<String>,
    pub codigo_postal: Option<String>,
    pub cobertura: Option<Vec<ObraSocial>>,
    pub fecha_nacimiento: Option<String>,
    pub edad: Option<u8>,
}

impl JsonRecord for DNIProfesional {
    open spec fn decodable(v: JsonValue) -> bool {
        &&& v is Object
        &&& opt_text_of(v, "emision"@) is Some
        &&& opt_text_of(v, "apellido"@) is Some
        &&& opt_text_of(v, "nombres"@) is Some
        &&& opt_text_of(v, "cuil"@) is Some
        &&& opt_text_of(v, "calle"@) is Some
        &&& opt_text_of(v, "numero"@) is Some
        &&& opt_text_of(v, "piso"@) is Some
        &&& opt_text_of(v, "departamento"@) is Some
        &&& opt_text_of(v, "barrio"@) is Some
        &&& opt_text_of(v, "monoblock"@) is Some
        &&& opt_text_of(v, "ciudad"@) is Some
        &&& opt_text_of(v, "municipio"@) is Some
        &&& opt_text_of(v, "provincia"@) is Some
        &&& opt_text_of(v, "pais"@) is Some
        &&& opt_text_of(v, "foto"@) is Some
        &&& opt_text_of(v, "tramite"@) is Some
        &&& opt_text_of(v, "documento"@) is Some
        &&& opt_text_of(v, "fallecido"@) is Some
        &&& opt_text_of(v, "codigo_postal"@) is Some
        &&& opt_list_decodable::<ObraSocial>(v, "cobertura"@)
        &&& opt_text_of(v, "fecha_nacimiento"@) is Some
        &&& opt_small_of(v, "edad"@) is Some
    }

    open spec fn read_from(self, v: JsonValue) -> bool {
        &&& v is Object
        &&& opt_text_of(v, "emision"@) == Some(opt_view(self.emision))
        &&& opt_text_of(v, "apellido"@) == Some(opt_view(self.apellido))
        &&& opt_text_of(v, "nombres"@) == Some(opt_view(self.nombres))
        &&& opt_text_of(v, "cuil"@) == Some(opt_view(self.cuil))
        &&& opt_text_of(v, "calle"@) == Some(opt_view(self.calle))
        &&& opt_text_of(v, "numero"@) == Some(opt_view(self.numero))
        &&& opt_text_of(v, "piso"@) == Some(opt_view(self.piso))
        &&& opt_text_of(v, "departamento"@) == Some(opt_view(self.departamento))
        &&& opt_text_of(v, "barrio"@) == Some(opt_view(self.barrio))
        &&& opt_text_of(v, "monoblock"@) == Some(opt_view(self.monoblock))
        &&& opt_text_of(v, "ciudad"@) == Some(opt_view(self.ciudad))
        &&& opt_text_of(v, "municipio"@) == Some(opt_view(self.municipio))
        &&& opt_text_of(v, "provincia"@) == Some(opt_view(self.provincia))
        &&& opt_text_of(v, "pais"@) == Some(opt_view(self.pais))
        &&& opt_text_of(v, "foto"@) == Some(opt_view(self.foto))
        &&& opt_text_of(v, "tramite"@) == Some(opt_view(self.tramite))
        &&& opt_text_of(v, "documento"@) == Some(opt_view(self.documento))
        &&& opt_text_of(v, "fallecido"@) == Some(opt_view(self.fallecido))
        &&& opt_text_of(v, "codigo_postal"@) == Some(opt_view(self.codigo_postal))
        &&& opt_list_read(v, "cobertura"@, self.cobertura)
        &&& opt_text_of(v, "fecha_nacimiento"@) == Some(opt_view(self.fecha_nacimiento))
        &&& opt_small_of(v, "edad"@) == Some(self.edad)
    }

    fn from_json(v: &JsonValue) -> (r: Result<Self, Error>) {
        expect_object(v)?;
        let emision = opt_text_field(v, "emision")?;
        let apellido = opt_text_field(v, "apellido")?;
        let nombres = opt_text_field(v, "nombres")?;
        let cuil = opt_text_field(v, "cuil")?;
        let calle = opt_text_field(v, "calle")?;
        let numero = opt_text_field(v, "numero")?;
        let piso = opt_text_field(v, "piso")?;
        let departamento = opt_text_field(v, "departamento")?;
        let barrio = opt_text_field(v, "barrio")?;
        let monoblock = opt_text_field(v, "monoblock")?;
        let ciudad = opt_text_field(v, "ciudad")?;
        let municipio = opt_text_field(v, "municipio")?;
        let provincia = opt_text_field(v, "provincia")?;
        let pais = opt_text_field(v, "pais")?;
        let foto = opt_text_field(v, "foto")?;
        let tramite = opt_text_field(v, "tramite")?;
        let documento = opt_text_field(v, "documento")?;
        let fallecido = opt_text_field(v, "fallecido")?;
        let codigo_postal = opt_text_field(v, "codigo_postal")?;
        let cobertura = opt_list_field(v, "cobertura")?;
        let fecha_nacimiento = opt_text_field(v, "fecha_nacimiento")?;
        let edad = opt_small_field(v, "edad")?;
        Ok(DNIProfesional {
            emision,
            apellido,
            nombres,
            cuil,
            calle,
            numero,
            piso,
            departamento,
            barrio,
            monoblock,
            ciudad,
            municipio,
            provincia,
            pais,
            foto,
            tramite,
            documento,
            fallecido,
            codigo_postal,
            cobertura,
            fecha_nacimiento,
            edad,
        })
    }
}

/// A person found by name.
#[derive(Debug, Clone, PartialEq, Eq)]
pub struct PersonaNombre {
    pub nombre: String,
    pub documento: String,
    pub provincia: String,
}

impl JsonRecord for PersonaNombre {
    open spec fn decodable(v: JsonValue) -> bool {
        &&& v is Object
        &&& text_of(v, "nombre"@) is Some
        &&& text_of(v, "documento"@) is Some
        &&& text_of(v, "provincia"@) is Some
    }

    open spec fn read_from(self, v: JsonValue) -> bool {
        &&& v is Object
        &&& text_of(v, "nombre"@) == Some(self.nombre@)
        &&& text_of(v, "documento"@) == Some(self.documento@)
        &&& text_of(v, "provincia"@) == Some(self.provincia@)
    }

    fn from_json(v: &JsonValue) -> (r: Result<Self, Error>) {
        expect_object(v)?;
        let nombre = text_field(v, "nombre")?;
        let documento = text_field(v, "documento")?;
        let provincia = text_field(v, "provincia")?;
        Ok(PersonaNombre { nombre, documento, provincia })
    }
}

/// The e-mail address behind a Movistar line.
#[derive(Debug, Clone, PartialEq, Eq)]
pub struct MovistarEmail {
    /// Wire name `num`.
    pub numero: String,
    pub email: String,
}

impl JsonRecord for MovistarEmail {
    open spec fn decodable(v: JsonValue) -> bool {
        &&& v is Object
        &&& text_of(v, "num"@) is Some
        &&& text_of(v, "email"@) is Some
    }

    open spec fn read_from(self, v: JsonValue) -> bool {
        &&& v is Object
        &&& text_of(v, "num"@) == Some(self.numero@)
        &&& text_of(v, "email"@) == Some(self.email@)
    }

    fn from_json(v: &JsonValue) -> (r: Result<Self, Error>) {
        expect_object(v)?;
        let numero = text_field(v, "num")?;
        let email = text_field(v, "email")?;
        Ok(MovistarEmail { numero, email })
    }
}

/// A person found at an address.
#[derive(Debug, Clone, PartialEq, Eq)]
pub struct PersonaDireccion {
    pub numero: Option<String>,
    /// Wire name `doc`.
    pub documento: Option<String>,
    pub nombre: Option<String>,
    pub direccion: Option<String>,
    pub localidad: Option<String>,
    pub provincia: Option<String>,
    pub codigo_postal: Option<String>,
    pub empresa: Option<String>,
}

impl JsonRecord for PersonaDireccion {
    open spec fn decodable(v: JsonValue) -> bool {
        &&& v is Object
        &&& opt_text_of(v, "numero"@) is Some
        &&& opt_text_of(v, "doc"@) is Some
        &&& opt_text_of(v, "nombre"@) is Some
        &&& opt_text_of(v, "direccion"@) is Some
        &&& opt_text_of(v, "localidad"@) is Some
        &&& opt_text_of(v, "provincia"@) is Some
        &&& opt_text_of(v, "codigo_postal"@) is Some
        &&& opt_text_of(v, "empresa"@) is Some
    }

    open spec fn read_from(self, v: JsonValue) -> bool {
        &&& v is Object
        &&& opt_text_of(v, "numero"@) == Some(opt_view(self.numero))
        &&& opt_text_of(v, "doc"@) == Some(opt_view(self.documento))
        &&& opt_text_of(v, "nombre"@) == Some(opt_view(self.nombre))
        &&& opt_text_of(v, "direccion"@) == Some(opt_view(self.direccion))
        &&& opt_text_of(v, "localidad"@) == Some(opt_view(self.localidad))
        &&& opt_text_of(v, "provincia"@) == Some(opt_view(self.provincia))
        &&& opt_text_of(v, "codigo_postal"@) == Some(opt_view(self.codigo_postal))
        &&& opt_text_of(v, "empresa"@) == Some(opt_view(self.empresa))
    }

    fn from_json(v: &JsonValue) -> (r: Result<Self, Error>) {
        expect_object(v)?;
        let numero = opt_text_field(v, "numero")?;
        let documento = opt_text_field(v, "doc")?;
        let nombre = opt_text_field(v, "nombre")?;
        let direccion = opt_text_field(v, "direccion")?;
        let localidad = opt_text_field(v, "localidad")?;
        let provincia = opt_text_field(v, "provincia")?;
        let codigo_postal = opt_text_field(v, "codigo_postal")?;
        let empresa = opt_text_field(v, "empresa")?;
        Ok(PersonaDireccion {
            numero,
            documento,
            nombre,
            direccion,
            localidad,
            provincia,
            codigo_postal,
            empresa,
        })
    }
}

/// A holder of a phone number.
#[derive(Debug, Clone, PartialEq, Eq)]
pub struct PersonaFromNumero {
    pub celular: String,
    pub documento: String,
    pub nombre: String,
    pub direccion: String,
    pub localidad: String,
    pub provincia: String,
    pub codigo_postal: String,
    pub empresa: String,
}

impl JsonRecord for PersonaFromNumero {
    open spec fn decodable(v: JsonValue) -> bool {
        &&& v is Object
        &&& text_of(v, "celular"@) is Some
        &&& text_of(v, "documento"@) is Some
        &&& text_of(v, "nombre"@) is Some
        &&& text_of(v, "direccion"@) is Some
        &&& text_of(v, "localidad"@) is Some
        &&& text_of(v, "provincia"@) is Some
        &&& text_of(v, "codigo_postal"@) is Some
        &&& text_of(v, "empresa"@) is Some
    }

    open spec fn read_from(self, v: JsonValue) -> bool {
        &&& v is Object
        &&& text_of(v, "celular"@) == Some(self.celular@)
        &&& text_of(v, "documento"@) == Some(self.documento@)
        &&& text_of(v, "nombre"@) == Some(self.nombre@)
        &&& text_of(v, "direccion"@) == Some(self.direccion@)
        &&& text_of(v, "localidad"@) == Some(self.localidad@)
        &&& text_of(v, "provincia"@) == Some(self.provincia@)
        &&& text_of(v, "codigo_postal"@) == Some(self.codigo_postal@)
        &&& text_of(v, "empresa"@) == Some(self.empresa@)
    }

    fn from_json(v: &JsonValue) -> (r: Result<Self, Error>) {
        expect_object(v)?;
        let celular = text_field(v, "celular")?;
        let documento = text_field(v, "documento")?;
        let nombre = text_field(v, "nombre")?;
        let direccion = text_field(v, "direccion")?;
        let localidad = text_field(v, "localidad")?;
        let provincia = text_field(v, "provincia")?;
        let codigo_postal = text_field(v, "codigo_postal")?;
        let empresa = text_field(v, "empresa")?;
        Ok(PersonaFromNumero {
            celular,
            documento,
            nombre,
            direccion,
            localidad,
            provincia,
            codigo_postal,
            empresa,
        })
    }
}

/// The current holder of a phone number.
#[derive(Debug, Clone, PartialEq, Eq)]
pub struct PersonaFromNumeroMagic {
    pub nombre: String,
    pub apellido: String,
    pub email: String,
    pub numero: String,
}

impl JsonRecord for PersonaFromNumeroMagic {
    open spec fn decodable(v: JsonValue) -> bool {
        &&& v is Object
        &&& text_of(v, "nombre"@) is Some
        &&& text_of(v, "apellido"@) is Some
        &&& text_of(v, "email"@) is Some
        &&& text_of(v, "numero"@) is Some
    }

    open spec fn read_from(self, v: JsonValue) -> bool {
        &&& v is Object
        &&& text_of(v, "nombre"@) == Some(self.nombre@)
        &&& text_of(v, "apellido"@) == Some(self.apellido@)
        &&& text_of(v, "email"@) == Some(self.email@)
        &&& text_of(v, "numero"@) == Some(self.numero@)
    }

    fn from_json(v: &JsonValue) -> (r: Result<Self, Error>) {
        expect_object(v)?;
        let nombre = text_field(v, "nombre")?;
        let apellido = text_field(v, "apellido")?;
        let email = text_field(v, "email")?;
        let numero = text_field(v, "numero")?;
        Ok(PersonaFromNumeroMagic { nombre, apellido, email, numero })
    }
}

/// The holder of an e-mail address.
#[derive(Debug, Clone, PartialEq, Eq)]
pub struct EmailResultados {
    pub nombre: String,
    pub apellido: String,
    pub email: String,
}

impl JsonRecord for EmailResultados {
    open spec fn decodable(v: JsonValue) -> bool {
        &&& v is Object
        &&& text_of(v, "nombre"@) is Some
        &&& text_of(v, "apellido"@) is Some
        &&& text_of(v, "email"@) is Some
    }

    open spec fn read_from(self, v: JsonValue) -> bool {
        &&& v is Object
        &&& text_of(v, "nombre"@) == Some(self.nombre@)
        &&& text_of(v, "apellido"@) == Some(self.apellido@)
        &&& text_of(v, "email"@) == Some(self.email@)
    }

    fn from_json(v: &JsonValue) -> (r: Result<Self, Error>) {
        expect_object(v)?;
        let nombre = text_field(v, "nombre")?;
        let apellido = text_field(v, "apellido")?;
        let email = text_field(v, "email")?;
        Ok(EmailResultados { nombre, apellido, email })
    }
}

/// The holder of a bank account, found by CBU/CVU or alias.
#[derive(Debug, Clone, PartialEq, Eq)]
pub struct TitularCBU {
    pub nombre: String,
    pub cuit: String,
    pub banco: String,
    pub cbu: String,
    pub cuenta_tipo: String,
}

impl JsonRecord for TitularCBU {
    open spec fn decodable(v: JsonValue) -> bool {
        &&& v is Object
        &&& text_of(v, "nombre"@) is Some
        &&& text_of(v, "cuit"@) is Some
        &&& text_of(v, "banco"@) is Some
        &&& text_of(v, "cbu"@) is Some
        &&& text_of(v, "cuenta_tipo"@) is Some
    }

    open spec fn read_from(self, v: JsonValue) -> bool {
        &&& v is Object
        &&& text_of(v, "nombre"@) == Some(self.nombre@)
        &&& text_of(v, "cuit"@) == Some(self.cuit@)
        &&& text_of(v, "banco"@) == Some(self.banco@)
        &&& text_of(v, "cbu"@) == Some(self.cbu@)
        &&& text_of(v, "cuenta_tipo"@) == Some(self.cuenta_tipo@)
    }

    fn from_json(v: &JsonValue) -> (r: Result<Self, Error>) {
        expect_object(v)?;
        let nombre = text_field(v, "nombre")?;
        let cuit = text_field(v, "cuit")?;
        let banco = text_field(v, "banco")?;
        let cbu = text_field(v, "cbu")?;
        let cuenta_tipo = text_field(v, "cuenta_tipo")?;
        Ok(TitularCBU { nombre, cuit, banco, cbu, cuenta_tipo })
    }
}

} // verus!
