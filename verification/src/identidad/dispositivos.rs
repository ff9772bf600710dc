//! Dispositivos de campo (la etiquetadora) autenticados por HMAC compartido,
//! sin usuario ni rol: cadena canónica "MÉTODO\nRUTA\nTIMESTAMP\nBODY",
//! ventana anti-replay de 300 segundos y comparación en tiempo constante.

use vstd::prelude::*;
use hmac::{Hmac, Mac};
use sha2::Sha256;
use crate::error::{texto, ErrorApi};
use crate::identidad::permisos::DispositivoActual;
use crate::texto::agregar_texto;

verus! {

/// Ventana anti-replay, en segundos, en cualquier dirección.
pub const VENTANA_TIMESTAMP_SEGUNDOS: i64 = 300;

/// Dígito hexadecimal, en minúscula o mayúscula.
pub open spec fn es_digito_hex(c: char) -> bool {
    ('0' <= c && c <= '9') || ('a' <= c && c <= 'f') || ('A' <= c && c <= 'F')
}

/// Valor de un dígito hexadecimal.
pub open spec fn valor_hex(c: char) -> int {
    if '0' <= c && c <= '9' {
        c as int - '0' as int
    } else if 'a' <= c && c <= 'f' {
        c as int - 'a' as int + 10
    } else {
        c as int - 'A' as int + 10
    }
}

/// El texto es hexadecimal de longitud par.
pub open spec fn hex_decodificable(s: Seq<char>) -> bool {
    s.len() % 2 == 0 && forall|i: int| 0 <= i < s.len() ==> es_digito_hex(#[trigger] s[i])
}

/// Los bytes que codifica un texto hexadecimal, dos dígitos por byte.
pub open spec fn bytes_de_hex(s: Seq<char>) -> Seq<u8> {
    Seq::new(s.len() / 2, |i: int| (valor_hex(s[2 * i]) * 16 + valor_hex(s[2 * i + 1])) as u8)
}

/// Decodifica hexadecimal con `hex::decode`: falla con longitud impar o con
/// un carácter que no es dígito hexadecimal (mayúsculas y minúsculas valen).
#[verifier::external_body]
fn decodificar_hex(s: &str) -> (r: Option<Vec<u8>>)
    ensures
        r is None <==> !hex_decodificable(s@),
        r matches Some(b) ==> b@ == bytes_de_hex(s@),
{
    hex::decode(s).ok()
}

/// Etiqueta HMAC-SHA256 (32 bytes) del mensaje con la clave, ambos tomados
/// como sus bytes UTF-8.
pub uninterp spec fn hmac_sha256(clave: Seq<char>, mensaje: Seq<char>) -> Seq<u8>;

/// Verifica una firma HMAC-SHA256 con `Hmac::<Sha256>::new_from_slice`,
/// `update` y `verify_slice`: la firma tiene que ser la etiqueta completa
/// (se rechaza otra longitud) y se compara en tiempo constante. Con HMAC
/// cualquier longitud de clave es válida, así que la creación no falla.
#[verifier::external_body]
fn hmac_coincide(clave: &str, mensaje: &str, firma: &Vec<u8>) -> (r: bool)
    ensures
        r == (firma@ == hmac_sha256(clave@, mensaje@)),
{
    let mut mac = match Hmac::<Sha256>::new_from_slice(clave.as_bytes()) {
        Ok(m) => m,
        Err(_) => return false,
    };
    mac.update(mensaje.as_bytes());
    mac.verify_slice(firma.as_slice()).is_ok()
}

/// La firma recibida (hexadecimal) es la del mensaje con el secreto.
pub open spec fn firma_correcta(secreto: Seq<char>, mensaje: Seq<char>, firma_hex: Seq<char>) -> bool {
    hex_decodificable(firma_hex) && bytes_de_hex(firma_hex) == hmac_sha256(secreto, mensaje)
}

/// Compara la firma recibida (hex) contra la recalculada, en tiempo
/// constante. Nunca compara textos con `==`.
pub fn firma_valida(secreto: &str, mensaje: &str, firma_hex: &str) -> (r: bool)
    ensures
        r == firma_correcta(secreto@, mensaje@, firma_hex@),
{
    match decodificar_hex(firma_hex) {
        Some(firma) => hmac_coincide(secreto, mensaje, &firma),
        None => false,
    }
}

/// Cadena canónica que firma el dispositivo.
pub open spec fn cadena_canonica(metodo: Seq<char>, ruta: Seq<char>, timestamp: Seq<char>, cuerpo: Seq<char>) -> Seq<
    char,
> {
    metodo + "\n"@ + ruta + "\n"@ + timestamp + "\n"@ + cuerpo
}

/// Arma la cadena canónica "MÉTODO\nRUTA\nTIMESTAMP\nBODY".
pub fn armar_cadena_canonica(metodo: &str, ruta: &str, timestamp: &str, cuerpo: &str) -> (r: String)
    ensures
        r@ == cadena_canonica(metodo@, ruta@, timestamp@, cuerpo@),
{
    let mut s = texto(metodo);
    agregar_texto(&mut s, "\n");
    agregar_texto(&mut s, ruta);
    agregar_texto(&mut s, "\n");
    agregar_texto(&mut s, timestamp);
    agregar_texto(&mut s, "\n");
    agregar_texto(&mut s, cuerpo);
    s
}

/// El timestamp del pedido está a no más de 300 segundos de la hora del
/// servidor, en cualquier dirección.
pub open spec fn en_ventana(ahora: int, timestamp: int) -> bool {
    -300 <= ahora - timestamp <= 300
}

/// La ventana anti-replay es simétrica: da lo mismo que el reloj del
/// dispositivo vaya adelantado o atrasado respecto del servidor. Se acepta
/// todo pedido a 300 segundos o menos de la hora del servidor, hacia
/// adelante o hacia atrás, y ninguno más lejano.
pub proof fn ley_ventana_simetrica(ahora: int, timestamp: int, k: int)
    ensures
        en_ventana(ahora, timestamp) == en_ventana(timestamp, ahora),
        en_ventana(ahora, ahora),
        0 <= k <= 300 ==> en_ventana(ahora, ahora + k) && en_ventana(ahora, ahora - k),
        k > 300 ==> !en_ventana(ahora, ahora + k) && !en_ventana(ahora, ahora - k),
{
}

/// Decide la ventana anti-replay sin desbordar, aun con timestamps extremos.
pub fn timestamp_en_ventana(ahora: i64, timestamp: i64) -> (r: bool)
    ensures
        r == en_ventana(ahora as int, timestamp as int),
{
    let d: i128 = ahora as i128 - timestamp as i128;
    -(VENTANA_TIMESTAMP_SEGUNDOS as i128) <= d && d <= VENTANA_TIMESTAMP_SEGUNDOS as i128
}

/// Un dispositivo activo registrado, con su secreto compartido.
#[derive(Debug, Clone)]
pub struct DispositivoRegistrado {
    pub id: u128,
    pub device_id: String,
    pub secreto_hmac: String,
}

/// Un pedido firmado, tal como llegó: método, ruta completa, el texto del
/// X-Timestamp y su valor (si se pudo leer como entero), el cuerpo (si es
/// UTF-8 y no excede el límite) y la firma hexadecimal.
#[derive(Debug, Clone)]
pub struct PedidoFirmado {
    pub metodo: String,
    pub ruta: String,
    pub timestamp_texto: String,
    pub timestamp: Option<i64>,
    pub cuerpo: Option<String>,
    pub firma_hex: String,
}

/// Autentica un pedido de dispositivo: timestamp dentro de la ventana,
/// dispositivo activo y firma correcta de la cadena canónica. Cualquier
/// fallo es `NoAutenticado`, sin detalle del motivo.
pub fn autenticar_dispositivo(
    ahora: i64,
    pedido: &PedidoFirmado,
    dispositivo: &Option<DispositivoRegistrado>,
) -> (r: Result<DispositivoActual, ErrorApi>)
    ensures
        r is Ok <==> (pedido.timestamp matches Some(t) && en_ventana(ahora as int, t as int) && (
        dispositivo matches Some(d) && (pedido.cuerpo matches Some(c) && firma_correcta(
            d.secreto_hmac@,
            cadena_canonica(pedido.metodo@, pedido.ruta@, pedido.timestamp_texto@, c@),
            pedido.firma_hex@,
        )))),
        r matches Ok(x) ==> (dispositivo matches Some(d) && x.id == d.id && x.device_id == d.device_id),
        r is Err ==> r == Err::<DispositivoActual, ErrorApi>(ErrorApi::NoAutenticado),
{
    let t = match pedido.timestamp {
        Some(t) => t,
        None => return Err(ErrorApi::NoAutenticado),
    };
    if !timestamp_en_ventana(ahora, t) {
        return Err(ErrorApi::NoAutenticado);
    }
    let d = match dispositivo {
        Some(d) => d,
        None => return Err(ErrorApi::NoAutenticado),
    };
    let cuerpo = match &pedido.cuerpo {
        Some(c) => c,
        None => return Err(ErrorApi::NoAutenticado),
    };
    let canonica = armar_cadena_canonica(
        pedido.metodo.as_str(),
        pedido.ruta.as_str(),
        pedido.timestamp_texto.as_str(),
        cuerpo.as_str(),
    );
    let firma_ok = firma_valida(d.secreto_hmac.as_str(), canonica.as_str(), pedido.firma_hex.as_str());
    dispositivo_autenticado(d, firma_ok)
}

/// El dispositivo queda autenticado si su firma resultó válida; si no,
/// `NoAutenticado`.
pub fn dispositivo_autenticado(d: &DispositivoRegistrado, firma_ok: bool) -> (r: Result<DispositivoActual, ErrorApi>)
    ensures
        r is Ok <==> firma_ok,
        r matches Ok(x) ==> x.id == d.id && x.device_id == d.device_id,
        r is Err ==> r == Err::<DispositivoActual, ErrorApi>(ErrorApi::NoAutenticado),
{
    if firma_ok {
        Ok(DispositivoActual { id: d.id, device_id: d.device_id.clone() })
    } else {
        Err(ErrorApi::NoAutenticado)
    }
}

} // verus!
