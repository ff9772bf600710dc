use pos::error::ErrorApi;

#[test]
fn cada_error_tiene_su_codigo_http() {
    assert_eq!(ErrorApi::NoAutenticado.codigo_http(), 401);
    assert_eq!(ErrorApi::Prohibido("vender".to_string()).codigo_http(), 403);
    assert_eq!(ErrorApi::NoEncontrado.codigo_http(), 404);
    assert_eq!(ErrorApi::Validacion("x".to_string()).codigo_http(), 422);
    assert_eq!(ErrorApi::Conflicto("x".to_string()).codigo_http(), 409);
    assert_eq!(ErrorApi::Interno("x".to_string()).codigo_http(), 500);
}

#[test]
fn el_detalle_interno_nunca_se_expone() {
    assert_eq!(ErrorApi::Interno("conexión rechazada".to_string()).mensaje_publico(), "error interno");
    assert_eq!(ErrorApi::Prohibido("vender".to_string()).mensaje(), "permiso denegado: vender");
    assert_eq!(ErrorApi::Validacion("el nombre es obligatorio".to_string()).mensaje(), "el nombre es obligatorio");
    assert_eq!(ErrorApi::NoAutenticado.mensaje(), "no autenticado");
}
