use hmac::{Hmac, Mac};
use pos::error::ErrorApi;
use pos::identidad::credenciales::{
    decidir_login, decidir_login_pin, hashear_secreto, longitud_utf8_hasta, resultado_login, validar_formato_pin,
    validar_password, verificar_secreto, CuentaLogin,
};
use pos::identidad::cuentas::{
    exigir_rol_activo, exigir_rol_nuevo, exigir_usuario_nuevo, preparar_alta_usuario, preparar_cambios_usuario,
    validar_alta_rol, validar_cambios_rol, validar_cambios_usuario, validar_desactivacion_rol,
    validar_desactivacion_usuario,
};
use pos::identidad::dispositivos::{
    armar_cadena_canonica, autenticar_dispositivo, dispositivo_autenticado, firma_valida, timestamp_en_ventana,
    DispositivoRegistrado, PedidoFirmado,
};
use pos::identidad::permisos::{es_valido, todos, validar_permisos, DispositivoActual, UsuarioActual};
use sha2::Sha256;

fn v<T>(m: &str) -> Result<T, ErrorApi> {
    Err(ErrorApi::Validacion(m.to_string()))
}

fn usuario(id: u128, permisos: &[&str]) -> UsuarioActual {
    UsuarioActual { id, nombre: "admin".to_string(), permisos: permisos.iter().map(|p| p.to_string()).collect() }
}

#[test]
fn formato_de_pin() {
    assert_eq!(validar_formato_pin("1234"), Ok(()));
    assert_eq!(validar_formato_pin("123456"), Ok(()));
    for malo in ["123", "1234567", "12a4", "", "١٢٣٤"] {
        assert_eq!(validar_formato_pin(malo), v("el PIN debe tener entre 4 y 6 dígitos"), "{malo}");
    }
}

#[test]
fn la_contrasena_se_mide_en_bytes() {
    assert_eq!(validar_password("12345678"), Ok(()));
    assert_eq!(validar_password("1234567"), v("la contraseña debe tener al menos 8 caracteres"));
    // Cuatro caracteres de dos bytes: 8 bytes, alcanza.
    assert_eq!(validar_password("ñáéí"), Ok(()));
    assert_eq!(longitud_utf8_hasta("añ€😀", 100), 10);
    assert_eq!(longitud_utf8_hasta("añ€😀", 4), 4);
}

#[test]
fn catalogo_de_permisos() {
    assert_eq!(todos().len(), 14);
    assert!(es_valido("vender"));
    assert!(!es_valido("etiquetar"), "el permiso del dispositivo no es asignable");
    let lista = vec!["vender".to_string(), "volar".to_string(), "nadar".to_string()];
    assert_eq!(validar_permisos(&lista), v("permiso desconocido: volar"));
}

#[test]
fn permiso_individual_es_aditivo() {
    let cajero_plus = usuario(1, &["vender", "confirmar_recepcion"]);
    assert_eq!(cajero_plus.exigir("confirmar_recepcion"), Ok(()));
    assert_eq!(cajero_plus.exigir("gestionar_usuarios"), Err(ErrorApi::Prohibido("gestionar_usuarios".to_string())));
}

#[test]
fn el_dispositivo_solo_etiqueta() {
    let d = DispositivoActual { id: 1, device_id: "etiquetadora-1".to_string() };
    assert_eq!(d.exigir("etiquetar"), Ok(()));
    assert_eq!(d.exigir("vender"), Err(ErrorApi::Prohibido("vender".to_string())));
}

#[test]
fn hash_y_verificacion_de_secretos() {
    let h = hashear_secreto("admin1234").unwrap();
    assert!(verificar_secreto(&h, "admin1234"));
    assert!(!verificar_secreto(&h, "admin12345"));
    assert!(!verificar_secreto("no-es-un-hash", "admin1234"));
}

#[test]
fn login_con_password_y_con_pin() {
    let cuenta = CuentaLogin {
        id: 9,
        password_hash: hashear_secreto("secreto123").unwrap(),
        pin_hash: Some(hashear_secreto("4321").unwrap()),
        activo: true,
    };
    assert_eq!(decidir_login(&Some(cuenta.clone()), "secreto123"), Ok(9));
    assert_eq!(decidir_login(&Some(cuenta.clone()), "otra"), Err(ErrorApi::NoAutenticado));
    assert_eq!(decidir_login(&None, "secreto123"), Err(ErrorApi::NoAutenticado));
    assert_eq!(decidir_login_pin(&Some(cuenta.clone()), "4321"), Ok(9));
    assert_eq!(decidir_login_pin(&Some(cuenta.clone()), "1111"), Err(ErrorApi::NoAutenticado));
    let mut inactiva = cuenta.clone();
    inactiva.activo = false;
    assert_eq!(decidir_login(&Some(inactiva), "secreto123"), Err(ErrorApi::NoAutenticado));
    let mut sin_pin = cuenta;
    sin_pin.pin_hash = None;
    assert_eq!(decidir_login_pin(&Some(sin_pin), "4321"), Err(ErrorApi::NoAutenticado));
}

#[test]
fn alta_de_usuario() {
    let admin = usuario(1, &["gestionar_usuarios"]);
    let sin_pin: Option<String> = None;
    let alta = preparar_alta_usuario(&admin, "  cajero  ", "12345678", &Some("1234".to_string()), &vec![]).unwrap();
    assert_eq!(alta.nombre, "cajero");
    assert!(verificar_secreto(&alta.password_hash, "12345678"));
    assert!(verificar_secreto(alta.pin_hash.as_deref().unwrap(), "1234"));
    assert_eq!(preparar_alta_usuario(&admin, " ", "12345678", &sin_pin, &vec![]).map(|_| ()), v("el nombre es obligatorio"));
    assert_eq!(
        preparar_alta_usuario(&admin, "x", "corta", &sin_pin, &vec![]).map(|_| ()),
        v("la contraseña debe tener al menos 8 caracteres")
    );
    assert_eq!(
        preparar_alta_usuario(&admin, "x", "12345678", &sin_pin, &vec!["volar".to_string()]).map(|_| ()),
        v("permiso desconocido: volar")
    );
    assert_eq!(
        preparar_alta_usuario(&admin, "x", "12345678", &Some("12".to_string()), &vec![]).map(|_| ()),
        v("el PIN debe tener entre 4 y 6 dígitos")
    );
    assert_eq!(
        preparar_alta_usuario(&usuario(1, &[]), "x", "12345678", &sin_pin, &vec![]).map(|_| ()),
        Err(ErrorApi::Prohibido("gestionar_usuarios".to_string()))
    );
    assert_eq!(exigir_usuario_nuevo(false), Err(ErrorApi::Conflicto("ya existe un usuario con ese nombre".to_string())));
    assert_eq!(exigir_rol_activo(None), v("rol inexistente o inactivo"));
    assert_eq!(exigir_rol_activo(Some("Cajero".to_string())), Ok("Cajero".to_string()));
}

#[test]
fn cambios_de_usuario() {
    let admin = usuario(1, &["gestionar_usuarios"]);
    let nada: Option<String> = None;
    assert_eq!(validar_cambios_usuario(&admin, &None, &nada, &nada), Ok(()));
    assert_eq!(
        validar_cambios_usuario(&admin, &Some(vec!["volar".to_string()]), &Some("1".to_string()), &nada),
        v("permiso desconocido: volar")
    );
    assert_eq!(
        validar_cambios_usuario(&admin, &None, &Some("1".to_string()), &Some("x".to_string())),
        v("el PIN debe tener entre 4 y 6 dígitos")
    );
    assert_eq!(
        validar_cambios_usuario(&admin, &None, &nada, &Some("x".to_string())),
        v("la contraseña debe tener al menos 8 caracteres")
    );
    let c = preparar_cambios_usuario(&Some("  nuevo ".to_string()), &Some("12345678".to_string()), &nada).unwrap();
    assert_eq!(c.nombre.as_deref(), Some("nuevo"));
    assert!(verificar_secreto(c.password_hash.as_deref().unwrap(), "12345678"));
    assert!(c.pin_hash.is_none());
    // Sin contraseña ni PIN no se hashea nada: solo se recorta el nombre.
    let c = preparar_cambios_usuario(&Some(" otro\t".to_string()), &nada, &nada).unwrap();
    assert_eq!(c.nombre.as_deref(), Some("otro"));
    assert!(c.password_hash.is_none() && c.pin_hash.is_none());
    let c = preparar_cambios_usuario(&nada, &nada, &nada).unwrap();
    assert!(c.nombre.is_none());
}

#[test]
fn bajas_y_roles() {
    let admin = usuario(1, &["gestionar_usuarios"]);
    assert_eq!(validar_desactivacion_usuario(&admin, 1), v("no podés desactivarte a vos mismo"));
    assert_eq!(validar_desactivacion_usuario(&admin, 2), Ok(()));
    assert_eq!(
        validar_desactivacion_rol(&admin, true),
        Err(ErrorApi::Conflicto("hay usuarios activos con este rol; reasignalos antes de desactivarlo".to_string()))
    );
    assert_eq!(validar_alta_rol(&admin, " Repositor ", &vec!["ajustar_stock".to_string()]), Ok("Repositor".to_string()));
    assert_eq!(validar_alta_rol(&admin, "", &vec![]), v("el nombre es obligatorio"));
    assert_eq!(validar_cambios_rol(&admin, &Some(vec!["x".to_string()])), v("permiso desconocido: x"));
    assert_eq!(exigir_rol_nuevo(false), Err(ErrorApi::Conflicto("ya existe un rol con ese nombre".to_string())));
}

fn firmar(secreto: &str, mensaje: &str) -> String {
    let mut mac = Hmac::<Sha256>::new_from_slice(secreto.as_bytes()).unwrap();
    mac.update(mensaje.as_bytes());
    hex::encode(mac.finalize().into_bytes())
}

fn pedido(ahora: i64, secreto: &str) -> PedidoFirmado {
    let ts = ahora.to_string();
    let canonica = format!("GET\n/etiquetado/estado\n{ts}\n");
    PedidoFirmado {
        metodo: "GET".to_string(),
        ruta: "/etiquetado/estado".to_string(),
        timestamp_texto: ts,
        timestamp: Some(ahora),
        cuerpo: Some(String::new()),
        firma_hex: firmar(secreto, &canonica),
    }
}

fn etiquetadora() -> Option<DispositivoRegistrado> {
    Some(DispositivoRegistrado { id: 3, device_id: "etiquetadora-1".to_string(), secreto_hmac: "s3cr3t".to_string() })
}

#[test]
fn firma_valida_permite_el_acceso() {
    let ahora = 1_700_000_000;
    let d = autenticar_dispositivo(ahora, &pedido(ahora, "s3cr3t"), &etiquetadora()).unwrap();
    assert_eq!(d.id, 3);
    assert_eq!(d.device_id, "etiquetadora-1");
}

#[test]
fn firma_invalida_es_401() {
    let ahora = 1_700_000_000;
    assert_eq!(
        autenticar_dispositivo(ahora, &pedido(ahora, "secreto-equivocado"), &etiquetadora()).err(), Some(ErrorApi::NoAutenticado)
    );
    let mut p = pedido(ahora, "s3cr3t");
    p.firma_hex = "zz".to_string();
    assert_eq!(autenticar_dispositivo(ahora, &p, &etiquetadora()).err(), Some(ErrorApi::NoAutenticado));
}

#[test]
fn timestamp_vencido_es_401() {
    let ahora = 1_700_000_000;
    let viejo = pedido(ahora - 301, "s3cr3t");
    assert_eq!(autenticar_dispositivo(ahora, &viejo, &etiquetadora()).err(), Some(ErrorApi::NoAutenticado), "301s en el pasado");
    let futuro = pedido(ahora + 301, "s3cr3t");
    assert_eq!(autenticar_dispositivo(ahora, &futuro, &etiquetadora()).err(), Some(ErrorApi::NoAutenticado), "301s en el futuro");
    assert!(autenticar_dispositivo(ahora, &pedido(ahora - 300, "s3cr3t"), &etiquetadora()).is_ok());
    assert!(!timestamp_en_ventana(i64::MAX, i64::MIN));
}

#[test]
fn dispositivo_inexistente_es_401() {
    let ahora = 1_700_000_000;
    assert_eq!(autenticar_dispositivo(ahora, &pedido(ahora, "s3cr3t"), &None).err(), Some(ErrorApi::NoAutenticado));
}

#[test]
fn firma_hexadecimal_en_mayusculas_tambien_vale() {
    let mensaje = armar_cadena_canonica("POST", "/etiquetado/escanear", "17", "{\"codigo\":\"1\"}");
    assert_eq!(mensaje, "POST\n/etiquetado/escanear\n17\n{\"codigo\":\"1\"}");
    let firma = firmar("k", &mensaje).to_uppercase();
    assert!(firma_valida("k", &mensaje, &firma));
    assert!(!firma_valida("k", &mensaje, &firma[..62]));
}

/// Un cajero: vende y maneja su caja, nada más.
fn cajero() -> UsuarioActual {
    usuario(7, &["vender", "abrir_caja", "cerrar_caja"])
}

#[test]
fn cajero_no_puede_confirmar_recepciones() {
    let c = cajero();
    assert_eq!(c.exigir("vender"), Ok(()));
    assert_eq!(c.exigir("confirmar_recepcion"), Err(ErrorApi::Prohibido("confirmar_recepcion".to_string())));
    assert_eq!(c.exigir("gestionar_usuarios"), Err(ErrorApi::Prohibido("gestionar_usuarios".to_string())));
    assert_eq!(ErrorApi::Prohibido("confirmar_recepcion".to_string()).codigo_http(), 403);
}

#[test]
fn reportes_exigen_permiso() {
    assert_eq!(cajero().exigir("ver_reportes"), Err(ErrorApi::Prohibido("ver_reportes".to_string())));
    assert_eq!(usuario(8, &["ver_reportes"]).exigir("ver_reportes"), Ok(()));
}

#[test]
fn ajustar_requiere_permiso() {
    assert_eq!(cajero().exigir("ajustar_stock"), Err(ErrorApi::Prohibido("ajustar_stock".to_string())));
}

#[test]
fn dispositivo_inactivo_es_401() {
    // Un dispositivo desactivado no figura entre los activos: la firma,
    // aunque sea correcta, no alcanza.
    let ahora = 1_700_000_000;
    let r = autenticar_dispositivo(ahora, &pedido(ahora, "s3cr3t"), &None);
    assert_eq!(r.err(), Some(ErrorApi::NoAutenticado));
    assert_eq!(ErrorApi::NoAutenticado.codigo_http(), 401);
}

#[test]
fn resultado_del_login_segun_la_verificacion() {
    let activa = CuentaLogin { id: 9, password_hash: String::new(), pin_hash: None, activo: true };
    assert_eq!(resultado_login(&Some(activa.clone()), true), Ok(9));
    assert_eq!(resultado_login(&Some(activa.clone()), false), Err(ErrorApi::NoAutenticado));
    let inactiva = CuentaLogin { activo: false, ..activa };
    assert_eq!(resultado_login(&Some(inactiva), true), Err(ErrorApi::NoAutenticado));
    assert_eq!(resultado_login(&None, true), Err(ErrorApi::NoAutenticado));
}

#[test]
fn dispositivo_autenticado_solo_con_firma_valida() {
    let d = etiquetadora().unwrap();
    let ok = dispositivo_autenticado(&d, true).unwrap();
    assert_eq!((ok.id, ok.device_id.as_str()), (3, "etiquetadora-1"));
    assert_eq!(dispositivo_autenticado(&d, false).err(), Some(ErrorApi::NoAutenticado));
}

#[test]
fn los_permisos_del_usuario_son_un_conjunto() {
    let lista = ["vender", "abrir_caja", "vender", "cerrar_caja", "abrir_caja"];
    let u = UsuarioActual::nuevo(4, "caja".to_string(), lista.iter().map(|p| p.to_string()).collect());
    assert_eq!(u.id, 4);
    assert_eq!(u.nombre, "caja");
    assert_eq!(u.permisos, vec!["vender".to_string(), "abrir_caja".to_string(), "cerrar_caja".to_string()]);
    assert_eq!(u.exigir("cerrar_caja"), Ok(()));
    assert_eq!(u.exigir("ver_reportes"), Err(ErrorApi::Prohibido("ver_reportes".to_string())));
}

#[test]
fn el_hash_de_un_secreto_valido_siempre_se_obtiene() {
    let admin = usuario(1, &["gestionar_usuarios"]);
    let alta = preparar_alta_usuario(&admin, "cajera", "12345678", &Some("1234".to_string()), &vec![]).unwrap();
    assert!(verificar_secreto(&alta.password_hash, "12345678"));
    assert!(verificar_secreto(alta.pin_hash.as_deref().unwrap(), "1234"));
    let c = preparar_cambios_usuario(&None, &Some("otra-clave".to_string()), &Some("9876".to_string())).unwrap();
    assert!(verificar_secreto(c.password_hash.as_deref().unwrap(), "otra-clave"));
    assert!(verificar_secreto(c.pin_hash.as_deref().unwrap(), "9876"));
}
