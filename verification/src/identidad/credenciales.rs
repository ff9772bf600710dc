//! Credenciales: hash y verificación de contraseñas y PINs (argon2), formato
//! del PIN y decisión del login.

use vstd::prelude::*;
use argon2::password_hash::rand_core::OsRng;
use argon2::password_hash::{PasswordHash, PasswordHasher, PasswordVerifier, SaltString};
use argon2::Argon2;
use crate::error::{es_validacion, texto, validacion, ErrorApi};

verus! {

/// `secreto` verifica contra el hash argon2 `hash` (en formato PHC).
pub uninterp spec fn secreto_verifica(hash: Seq<char>, secreto: Seq<char>) -> bool;

/// Hashea un secreto con argon2 (parámetros por defecto) y una sal aleatoria
/// de `OsRng`: `Argon2::hash_password`, en formato PHC. La sal hace que el
/// resultado cambie en cada llamada; lo que se afirma es que el hash
/// obtenido verifica con el mismo secreto (`verify_password` rehace el hash
/// con la sal y los parámetros guardados y compara). Con los parámetros por
/// defecto y la sal de 16 bytes que genera `SaltString::generate`, argon2 solo
/// falla con una contraseña de más de `MAX_PWD_LEN` (0xFFFFFFFF) bytes; ese
/// error se devuelve como error interno.
#[verifier::external_body]
pub fn hashear_secreto(secreto: &str) -> (r: Result<String, ErrorApi>)
    ensures
        hasheable(secreto@) ==> r is Ok,
        r matches Ok(h) ==> secreto_verifica(h@, secreto@),
        r matches Err(e) ==> e is Interno,
{
    let salt = SaltString::generate(&mut OsRng);
    match Argon2::default().hash_password(secreto.as_bytes(), &salt) {
        Ok(h) => Ok(h.to_string()),
        Err(e) => Err(ErrorApi::Interno(format!("error al hashear: {e}"))),
    }
}

/// Verifica un secreto contra un hash argon2: `PasswordHash::new` y
/// `Argon2::verify_password`. Un hash mal formado no verifica. El resultado
/// depende solo del hash y del secreto.
#[verifier::external_body]
pub fn verificar_secreto(hash: &str, secreto: &str) -> (r: bool)
    ensures
        r == secreto_verifica(hash@, secreto@),
{
    match PasswordHash::new(hash) {
        Ok(h) => Argon2::default().verify_password(secreto.as_bytes(), &h).is_ok(),
        Err(_) => false,
    }
}

/// Un PIN válido: de 4 a 6 dígitos ASCII.
pub open spec fn pin_valido(pin: Seq<char>) -> bool {
    4 <= pin.len() <= 6 && forall|i: int| 0 <= i < pin.len() ==> '0' <= #[trigger] pin[i] <= '9'
}

/// PIN corto para cambio rápido de operador en la caja compartida.
pub fn validar_formato_pin(pin: &str) -> (r: Result<(), ErrorApi>)
    ensures
        r is Ok <==> pin_valido(pin@),
        r matches Err(e) ==> es_validacion(e, "el PIN debe tener entre 4 y 6 dígitos"@),
{
    let n = pin.unicode_len();
    let mut ok = 4 <= n && n <= 6;
    let mut i: usize = 0;
    while ok && i < n
        invariant
            n == pin@.len(),
            i <= n,
            ok ==> 4 <= n <= 6,
            ok ==> forall|k: int| 0 <= k < i ==> '0' <= #[trigger] pin@[k] <= '9',
            !ok ==> !pin_valido(pin@),
        decreases n - i,
    {
        let c = pin.get_char(i);
        if c < '0' || c > '9' {
            ok = false;
        }
        i = i + 1;
    }
    if ok {
        Ok(())
    } else {
        Err(validacion("el PIN debe tener entre 4 y 6 dígitos"))
    }
}

/// Bytes que ocupa un carácter en UTF-8.
pub open spec fn bytes_caracter(c: char) -> nat {
    if (c as u32) < 0x80 {
        1
    } else if (c as u32) < 0x800 {
        2
    } else if (c as u32) < 0x10000 {
        3
    } else {
        4
    }
}

/// Longitud en bytes de un texto en UTF-8 (lo que devuelve `str::len`).
pub open spec fn longitud_utf8(s: Seq<char>) -> nat
    decreases s.len(),
{
    if s.len() == 0 {
        0
    } else {
        longitud_utf8(s.drop_last()) + bytes_caracter(s.last())
    }
}

/// argon2 acepta el secreto: a lo sumo 0xFFFFFFFF bytes en UTF-8.
pub open spec fn hasheable(s: Seq<char>) -> bool {
    longitud_utf8(s) <= 0xFFFF_FFFF
}

/// Cada carácter ocupa a lo sumo cuatro bytes en UTF-8.
pub proof fn lema_longitud_utf8_cota(s: Seq<char>)
    ensures
        longitud_utf8(s) <= 4 * s.len(),
    decreases s.len(),
{
    if s.len() > 0 {
        lema_longitud_utf8_cota(s.drop_last());
    }
}

/// Longitud en bytes UTF-8, acotada: devuelve `tope` si la supera.
pub fn longitud_utf8_hasta(s: &str, tope: usize) -> (r: usize)
    ensures
        r == if longitud_utf8(s@) < tope { longitud_utf8(s@) } else { tope as nat },
{
    if tope == 0 {
        return 0;
    }
    let n = s.unicode_len();
    let mut total: usize = 0;
    let mut i: usize = 0;
    while i < n
        invariant
            n == s@.len(),
            i <= n,
            total == longitud_utf8(s@.take(i as int)),
            total < tope,
        decreases n - i,
    {
        assert(s@.take(i + 1).drop_last() =~= s@.take(i as int));
        let c = s.get_char(i);
        let b: usize = if (c as u32) < 0x80 {
            1
        } else if (c as u32) < 0x800 {
            2
        } else if (c as u32) < 0x10000 {
            3
        } else {
            4
        };
        if b >= tope - total {
            proof {
                lema_longitud_prefijo(s@, i + 1);
            }
            return tope;
        }
        total = total + b;
        i = i + 1;
    }
    assert(s@.take(n as int) =~= s@);
    total
}

proof fn lema_longitud_prefijo(s: Seq<char>, n: int)
    requires
        0 <= n <= s.len(),
    ensures
        longitud_utf8(s.take(n)) <= longitud_utf8(s),
    decreases s.len() - n,
{
    if n < s.len() {
        assert(s.take(n + 1).drop_last() =~= s.take(n));
        lema_longitud_prefijo(s, n + 1);
    } else {
        assert(s.take(n) =~= s);
    }
}

/// Una contraseña aceptable: al menos 8 bytes.
pub open spec fn password_aceptable(password: Seq<char>) -> bool {
    longitud_utf8(password) >= 8
}

/// La contraseña debe tener al menos 8 bytes.
pub fn validar_password(password: &str) -> (r: Result<(), ErrorApi>)
    ensures
        r is Ok <==> password_aceptable(password@),
        r matches Err(e) ==> es_validacion(e, "la contraseña debe tener al menos 8 caracteres"@),
{
    if longitud_utf8_hasta(password, 8) < 8 {
        Err(validacion("la contraseña debe tener al menos 8 caracteres"))
    } else {
        Ok(())
    }
}

/// Lo que el login lee del usuario buscado por nombre.
#[derive(Debug, Clone)]
pub struct CuentaLogin {
    pub id: u128,
    pub password_hash: String,
    pub pin_hash: Option<String>,
    pub activo: bool,
}

/// Resultado de un login una vez verificado el secreto: la cuenta existe,
/// está activa y el secreto verificó. Cualquier fallo es `NoAutenticado`,
/// sin decir cuál.
pub fn resultado_login(cuenta: &Option<CuentaLogin>, secreto_verificado: bool) -> (r: Result<u128, ErrorApi>)
    ensures
        r is Ok <==> (cuenta matches Some(c) && c.activo && secreto_verificado),
        r matches Ok(id) ==> cuenta matches Some(c) && id == c.id,
        r is Err ==> r == Err::<u128, ErrorApi>(ErrorApi::NoAutenticado),
{
    match cuenta {
        Some(c) => {
            if c.activo && secreto_verificado {
                Ok(c.id)
            } else {
                Err(ErrorApi::NoAutenticado)
            }
        },
        None => Err(ErrorApi::NoAutenticado),
    }
}

/// Login con contraseña: el usuario existe, está activo y la contraseña
/// verifica contra su hash.
pub fn decidir_login(cuenta: &Option<CuentaLogin>, password: &str) -> (r: Result<u128, ErrorApi>)
    ensures
        r matches Ok(id) ==> cuenta matches Some(c) && id == c.id,
        r is Ok <==> (cuenta matches Some(c) && c.activo && secreto_verifica(c.password_hash@, password@)),
        r is Err ==> r == Err::<u128, ErrorApi>(ErrorApi::NoAutenticado),
{
    let verificado = match cuenta {
        Some(c) => c.activo && verificar_secreto(c.password_hash.as_str(), password),
        None => false,
    };
    resultado_login(cuenta, verificado)
}

/// Login con PIN: el usuario existe, está activo, tiene PIN y el PIN
/// verifica contra su hash.
pub fn decidir_login_pin(cuenta: &Option<CuentaLogin>, pin: &str) -> (r: Result<u128, ErrorApi>)
    ensures
        r matches Ok(id) ==> cuenta matches Some(c) && id == c.id,
        r is Ok <==> (cuenta matches Some(c) && c.activo && (c.pin_hash matches Some(h) && secreto_verifica(
            h@,
            pin@,
        ))),
        r is Err ==> r == Err::<u128, ErrorApi>(ErrorApi::NoAutenticado),
{
    let verificado = match cuenta {
        Some(c) => c.activo && match &c.pin_hash {
            Some(h) => verificar_secreto(h.as_str(), pin),
            None => false,
        },
        None => false,
    };
    resultado_login(cuenta, verificado)
}

} // verus!
