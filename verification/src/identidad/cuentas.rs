//! Gestión de usuarios y roles: validaciones de altas, cambios y bajas.
//! Todo exige `gestionar_usuarios`.

use vstd::prelude::*;
use crate::error::{es_conflicto, es_prohibido, es_validacion, conflicto, validacion, ErrorApi};
use crate::identidad::credenciales::{
    hashear_secreto, hasheable, lema_longitud_utf8_cota, password_aceptable, pin_valido, secreto_verifica, validar_formato_pin,
    validar_password,
};
use crate::identidad::permisos::{
    primer_permiso_desconocido, tiene_permiso, validar_permisos, UsuarioActual, GESTIONAR_USUARIOS,
};
use crate::texto::{obligatorio, recortado, recortar};

verus! {

/// Lo que se guarda de un usuario nuevo.
#[derive(Debug, Clone)]
pub struct AltaUsuario {
    pub nombre: String,
    pub password_hash: String,
    pub pin_hash: Option<String>,
}

/// Primer error de validación del alta de un usuario (después del permiso).
pub open spec fn error_alta_usuario(
    nombre: Seq<char>,
    password: Seq<char>,
    pin: Option<String>,
    permisos_extra: Seq<String>,
) -> Option<Seq<char>> {
    if recortado(nombre).len() == 0 {
        Some("el nombre es obligatorio"@)
    } else if !password_aceptable(password) {
        Some("la contraseña debe tener al menos 8 caracteres"@)
    } else if primer_permiso_desconocido(permisos_extra) is Some {
        Some("permiso desconocido: "@ + primer_permiso_desconocido(permisos_extra).unwrap())
    } else if pin matches Some(p) && !pin_valido(p@) {
        Some("el PIN debe tener entre 4 y 6 dígitos"@)
    } else {
        None
    }
}

fn hashear_opcional(secreto: &Option<String>) -> (r: Result<Option<String>, ErrorApi>)
    ensures
        secreto is None ==> r == Ok::<Option<String>, ErrorApi>(None),
        secreto matches Some(s) && hasheable(s@) ==> r is Ok,
        secreto matches Some(s) ==> (r matches Ok(h) ==> h matches Some(x) && secreto_verifica(x@, s@)),
        r matches Err(e) ==> e is Interno,
{
    match secreto {
        Some(s) => match hashear_secreto(s.as_str()) {
            Ok(h) => Ok(Some(h)),
            Err(e) => Err(e),
        },
        None => Ok(None),
    }
}

/// Alta de usuario: exige `gestionar_usuarios`; nombre obligatorio (se
/// guarda recortado), contraseña de al menos 8 bytes, permisos extra del
/// catálogo y PIN de 4 a 6 dígitos si viene. Hashea contraseña y PIN.
pub fn preparar_alta_usuario(
    ejecutor: &UsuarioActual,
    nombre: &str,
    password: &str,
    pin: &Option<String>,
    permisos_extra: &Vec<String>,
) -> (r: Result<AltaUsuario, ErrorApi>)
    ensures
        !tiene_permiso(*ejecutor, "gestionar_usuarios"@) ==> (r matches Err(e) && es_prohibido(
            e,
            "gestionar_usuarios"@,
        )),
        tiene_permiso(*ejecutor, "gestionar_usuarios"@) ==> {
            &&& error_alta_usuario(nombre@, password@, *pin, permisos_extra@) matches Some(m) ==> (r matches Err(e)
                && es_validacion(e, m))
            &&& error_alta_usuario(nombre@, password@, *pin, permisos_extra@) is None ==> {
                ||| r matches Err(e) && e is Interno
                ||| r matches Ok(a) && a.nombre@ == recortado(nombre@) && secreto_verifica(a.password_hash@, password@)
                    && (pin is None ==> a.pin_hash is None) && (pin matches Some(p) ==> (a.pin_hash matches Some(
                    h) && secreto_verifica(h@, p@)))
            }
            &&& error_alta_usuario(nombre@, password@, *pin, permisos_extra@) is None && hasheable(password@) ==> r is Ok
        },
{
    if let Err(e) = ejecutor.exigir(GESTIONAR_USUARIOS) {
        return Err(e);
    }
    let n = match obligatorio(nombre, "el nombre es obligatorio") {
        Ok(n) => n,
        Err(e) => return Err(e),
    };
    if let Err(e) = validar_password(password) {
        return Err(e);
    }
    if let Err(e) = validar_permisos(permisos_extra) {
        return Err(e);
    }
    if let Some(p) = pin {
        if let Err(e) = validar_formato_pin(p.as_str()) {
            return Err(e);
        }
        proof {
            lema_longitud_utf8_cota(p@);
        }
    }
    let password_hash = match hashear_secreto(password) {
        Ok(h) => h,
        Err(e) => return Err(e),
    };
    let pin_hash = match hashear_opcional(pin) {
        Ok(h) => h,
        Err(e) => return Err(e),
    };
    Ok(AltaUsuario { nombre: n, password_hash, pin_hash })
}

/// Primer error de validación de los cambios a un usuario.
pub open spec fn error_cambios_usuario(
    permisos_extra: Option<Vec<String>>,
    pin: Option<String>,
    password: Option<String>,
) -> Option<Seq<char>> {
    if permisos_extra matches Some(l) && primer_permiso_desconocido(l@) is Some {
        Some("permiso desconocido: "@ + primer_permiso_desconocido(permisos_extra.unwrap()@).unwrap())
    } else if pin matches Some(p) && !pin_valido(p@) {
        Some("el PIN debe tener entre 4 y 6 dígitos"@)
    } else if password matches Some(p) && !password_aceptable(p@) {
        Some("la contraseña debe tener al menos 8 caracteres"@)
    } else {
        None
    }
}

/// Cambios a un usuario: exige `gestionar_usuarios`; los permisos extra
/// (si vienen) del catálogo, el PIN (si viene) de 4 a 6 dígitos, la
/// contraseña (si viene) de al menos 8 bytes.
pub fn validar_cambios_usuario(
    ejecutor: &UsuarioActual,
    permisos_extra: &Option<Vec<String>>,
    pin: &Option<String>,
    password: &Option<String>,
) -> (r: Result<(), ErrorApi>)
    ensures
        !tiene_permiso(*ejecutor, "gestionar_usuarios"@) ==> (r matches Err(e) && es_prohibido(
            e,
            "gestionar_usuarios"@,
        )),
        tiene_permiso(*ejecutor, "gestionar_usuarios"@) ==> {
            &&& error_cambios_usuario(*permisos_extra, *pin, *password) matches Some(m) ==> (r matches Err(e)
                && es_validacion(e, m))
            &&& error_cambios_usuario(*permisos_extra, *pin, *password) is None ==> r is Ok
        },
{
    if let Err(e) = ejecutor.exigir(GESTIONAR_USUARIOS) {
        return Err(e);
    }
    if let Some(l) = permisos_extra {
        if let Err(e) = validar_permisos(l) {
            return Err(e);
        }
    }
    if let Some(p) = pin {
        if let Err(e) = validar_formato_pin(p.as_str()) {
            return Err(e);
        }
        proof {
            lema_longitud_utf8_cota(p@);
        }
    }
    if let Some(p) = password {
        if let Err(e) = validar_password(p.as_str()) {
            return Err(e);
        }
    }
    Ok(())
}

/// Lo que cambia de un usuario: el nombre recortado y los hashes nuevos.
#[derive(Debug, Clone)]
pub struct CambiosUsuario {
    pub nombre: Option<String>,
    pub password_hash: Option<String>,
    pub pin_hash: Option<String>,
}

/// Prepara los cambios ya validados: recorta el nombre y hashea la
/// contraseña y el PIN que vengan.
pub fn preparar_cambios_usuario(nombre: &Option<String>, password: &Option<String>, pin: &Option<String>) -> (r: Result<
    CambiosUsuario,
    ErrorApi,
>)
    ensures
        (password matches Some(p) ==> hasheable(p@)) && (pin matches Some(p) ==> hasheable(p@)) ==> r is Ok,
        r matches Err(e) ==> e is Interno,
        r matches Ok(c) ==> {
            &&& nombre is None ==> c.nombre is None
            &&& nombre matches Some(n) ==> (c.nombre matches Some(t) && t@ == recortado(n@))
            &&& password is None ==> c.password_hash is None
            &&& password matches Some(p) ==> (c.password_hash matches Some(h) && secreto_verifica(h@, p@))
            &&& pin is None ==> c.pin_hash is None
            &&& pin matches Some(p) ==> (c.pin_hash matches Some(h) && secreto_verifica(h@, p@))
        },
{
    let n = match nombre {
        Some(n) => Some(recortar(n.as_str())),
        None => None,
    };
    let password_hash = match hashear_opcional(password) {
        Ok(h) => h,
        Err(e) => return Err(e),
    };
    let pin_hash = match hashear_opcional(pin) {
        Ok(h) => h,
        Err(e) => return Err(e),
    };
    Ok(CambiosUsuario { nombre: n, password_hash, pin_hash })
}

/// El rol indicado tiene que existir y estar activo; devuelve su nombre.
pub fn exigir_rol_activo(rol_nombre: Option<String>) -> (r: Result<String, ErrorApi>)
    ensures
        rol_nombre matches Some(n) ==> r == Ok::<String, ErrorApi>(n),
        rol_nombre is None ==> (r matches Err(e) && es_validacion(e, "rol inexistente o inactivo"@)),
{
    match rol_nombre {
        Some(n) => Ok(n),
        None => Err(validacion("rol inexistente o inactivo")),
    }
}

/// El nombre de usuario no puede repetirse.
pub fn exigir_usuario_nuevo(insertado: bool) -> (r: Result<(), ErrorApi>)
    ensures
        r is Ok <==> insertado,
        r matches Err(e) ==> es_conflicto(e, "ya existe un usuario con ese nombre"@),
{
    if insertado {
        Ok(())
    } else {
        Err(conflicto("ya existe un usuario con ese nombre"))
    }
}

/// El nombre de rol no puede repetirse.
pub fn exigir_rol_nuevo(insertado: bool) -> (r: Result<(), ErrorApi>)
    ensures
        r is Ok <==> insertado,
        r matches Err(e) ==> es_conflicto(e, "ya existe un rol con ese nombre"@),
{
    if insertado {
        Ok(())
    } else {
        Err(conflicto("ya existe un rol con ese nombre"))
    }
}

/// Baja de un usuario: exige `gestionar_usuarios` y nadie se desactiva a sí mismo.
pub fn validar_desactivacion_usuario(ejecutor: &UsuarioActual, usuario_id: u128) -> (r: Result<(), ErrorApi>)
    ensures
        !tiene_permiso(*ejecutor, "gestionar_usuarios"@) ==> (r matches Err(e) && es_prohibido(
            e,
            "gestionar_usuarios"@,
        )),
        tiene_permiso(*ejecutor, "gestionar_usuarios"@) && ejecutor.id == usuario_id ==> (r matches Err(e)
            && es_validacion(e, "no podés desactivarte a vos mismo"@)),
        tiene_permiso(*ejecutor, "gestionar_usuarios"@) && ejecutor.id != usuario_id ==> r is Ok,
{
    if let Err(e) = ejecutor.exigir(GESTIONAR_USUARIOS) {
        return Err(e);
    }
    if ejecutor.id == usuario_id {
        return Err(validacion("no podés desactivarte a vos mismo"));
    }
    Ok(())
}

/// Alta de rol: exige `gestionar_usuarios`, nombre obligatorio (recortado)
/// y permisos del catálogo.
pub fn validar_alta_rol(ejecutor: &UsuarioActual, nombre: &str, permisos: &Vec<String>) -> (r: Result<String, ErrorApi>)
    ensures
        !tiene_permiso(*ejecutor, "gestionar_usuarios"@) ==> (r matches Err(e) && es_prohibido(
            e,
            "gestionar_usuarios"@,
        )),
        tiene_permiso(*ejecutor, "gestionar_usuarios"@) ==> {
            &&& recortado(nombre@).len() == 0 ==> (r matches Err(e) && es_validacion(e, "el nombre es obligatorio"@))
            &&& primer_permiso_desconocido(permisos@) matches Some(p) ==> (recortado(nombre@).len() > 0 ==> (
            r matches Err(e) && es_validacion(e, "permiso desconocido: "@ + p)))
            &&& recortado(nombre@).len() > 0 && primer_permiso_desconocido(permisos@) is None ==> (r matches Ok(n)
                && n@ == recortado(nombre@))
        },
{
    if let Err(e) = ejecutor.exigir(GESTIONAR_USUARIOS) {
        return Err(e);
    }
    let n = match obligatorio(nombre, "el nombre es obligatorio") {
        Ok(n) => n,
        Err(e) => return Err(e),
    };
    if let Err(e) = validar_permisos(permisos) {
        return Err(e);
    }
    Ok(n)
}

/// Cambios a un rol: exige `gestionar_usuarios`; los permisos, si vienen,
/// del catálogo.
pub fn validar_cambios_rol(ejecutor: &UsuarioActual, permisos: &Option<Vec<String>>) -> (r: Result<(), ErrorApi>)
    ensures
        !tiene_permiso(*ejecutor, "gestionar_usuarios"@) ==> (r matches Err(e) && es_prohibido(
            e,
            "gestionar_usuarios"@,
        )),
        tiene_permiso(*ejecutor, "gestionar_usuarios"@) ==> {
            &&& (*permisos matches Some(l) && primer_permiso_desconocido(l@) is Some) ==> (r matches Err(e)
                && es_validacion(e, "permiso desconocido: "@ + primer_permiso_desconocido(permisos.unwrap()@).unwrap()))
            &&& !(*permisos matches Some(l) && primer_permiso_desconocido(l@) is Some) ==> r is Ok
        },
{
    if let Err(e) = ejecutor.exigir(GESTIONAR_USUARIOS) {
        return Err(e);
    }
    if let Some(l) = permisos {
        if let Err(e) = validar_permisos(l) {
            return Err(e);
        }
    }
    Ok(())
}

/// Baja de un rol: exige `gestionar_usuarios` y que ningún usuario activo
/// lo tenga asignado.
pub fn validar_desactivacion_rol(ejecutor: &UsuarioActual, en_uso: bool) -> (r: Result<(), ErrorApi>)
    ensures
        !tiene_permiso(*ejecutor, "gestionar_usuarios"@) ==> (r matches Err(e) && es_prohibido(
            e,
            "gestionar_usuarios"@,
        )),
        tiene_permiso(*ejecutor, "gestionar_usuarios"@) && en_uso ==> (r matches Err(e) && es_conflicto(
            e,
            "hay usuarios activos con este rol; reasignalos antes de desactivarlo"@,
        )),
        tiene_permiso(*ejecutor, "gestionar_usuarios"@) && !en_uso ==> r is Ok,
{
    if let Err(e) = ejecutor.exigir(GESTIONAR_USUARIOS) {
        return Err(e);
    }
    if en_uso {
        return Err(conflicto("hay usuarios activos con este rol; reasignalos antes de desactivarlo"));
    }
    Ok(())
}

} // verus!
