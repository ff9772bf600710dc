//! Error de la API, con su código HTTP y el mensaje que ve el cliente.

use vstd::prelude::*;

verus! {

/// Error de dominio. Cada variante se traduce a un código HTTP fijo.
#[derive(Debug, Clone, PartialEq, Eq)]
pub enum ErrorApi {
    NoAutenticado,
    Prohibido(String),
    NoEncontrado,
    Validacion(String),
    Conflicto(String),
    Interno(String),
}

/// Código HTTP que corresponde a cada variante.
pub open spec fn codigo_http_de(e: ErrorApi) -> u16 {
    match e {
        ErrorApi::NoAutenticado => 401,
        ErrorApi::Prohibido(_) => 403,
        ErrorApi::NoEncontrado => 404,
        ErrorApi::Validacion(_) => 422,
        ErrorApi::Conflicto(_) => 409,
        ErrorApi::Interno(_) => 500,
    }
}

/// `e` es un error de validación con exactamente ese mensaje.
pub open spec fn es_validacion(e: ErrorApi, mensaje: Seq<char>) -> bool {
    e matches ErrorApi::Validacion(m) && m@ == mensaje
}

/// `e` es un conflicto con exactamente ese mensaje.
pub open spec fn es_conflicto(e: ErrorApi, mensaje: Seq<char>) -> bool {
    e matches ErrorApi::Conflicto(m) && m@ == mensaje
}

/// `e` es un permiso denegado sobre exactamente ese permiso.
pub open spec fn es_prohibido(e: ErrorApi, permiso: Seq<char>) -> bool {
    e matches ErrorApi::Prohibido(m) && m@ == permiso
}

/// Mensaje visible de cada variante (el texto de `Display`).
pub open spec fn mensaje_de(e: ErrorApi) -> Seq<char> {
    match e {
        ErrorApi::NoAutenticado => "no autenticado"@,
        ErrorApi::Prohibido(p) => "permiso denegado: "@ + p@,
        ErrorApi::NoEncontrado => "no encontrado"@,
        ErrorApi::Validacion(m) => m@,
        ErrorApi::Conflicto(m) => m@,
        ErrorApi::Interno(_) => "error interno"@,
    }
}

/// Texto desde un literal, con su contenido a la vista del verificador.
pub fn texto(s: &str) -> (r: String)
    ensures
        r@ == s@,
{
    String::from_str(s)
}

/// Error de validación con el mensaje dado.
pub fn validacion(s: &str) -> (r: ErrorApi)
    ensures
        es_validacion(r, s@),
{
    ErrorApi::Validacion(texto(s))
}

/// Conflicto con el mensaje dado.
pub fn conflicto(s: &str) -> (r: ErrorApi)
    ensures
        es_conflicto(r, s@),
{
    ErrorApi::Conflicto(texto(s))
}

impl ErrorApi {
    /// Código HTTP de la respuesta.
    pub fn codigo_http(&self) -> (r: u16)
        ensures
            r == codigo_http_de(*self),
    {
        match self {
            ErrorApi::NoAutenticado => 401,
            ErrorApi::Prohibido(_) => 403,
            ErrorApi::NoEncontrado => 404,
            ErrorApi::Validacion(_) => 422,
            ErrorApi::Conflicto(_) => 409,
            ErrorApi::Interno(_) => 500,
        }
    }

    /// Mensaje del error tal como se muestra (`to_string` del original).
    pub fn mensaje(&self) -> (r: String)
        ensures
            r@ == mensaje_de(*self),
    {
        match self {
            ErrorApi::NoAutenticado => texto("no autenticado"),
            ErrorApi::Prohibido(p) => texto("permiso denegado: ").concat(p.as_str()),
            ErrorApi::NoEncontrado => texto("no encontrado"),
            ErrorApi::Validacion(m) => m.clone(),
            ErrorApi::Conflicto(m) => m.clone(),
            ErrorApi::Interno(_) => texto("error interno"),
        }
    }

    /// Mensaje que viaja en el cuerpo de la respuesta: el detalle de un
    /// error interno nunca se expone.
    pub fn mensaje_publico(&self) -> (r: String)
        ensures
            r@ == mensaje_de(*self),
    {
        self.mensaje()
    }
}

} // verus!
