use pos::catalogo::{
    asignar_codigos_alta, decidir_codigo_barras, exigir_categoria_activa, exigir_categoria_nueva, exigir_padre_activo,
    normalizar_codigos, producto_para_compra, redondeo_precio_configurado, resolver_porcentaje, validar_alta_categoria,
    validar_alta_producto, validar_cambios_categoria, validar_cambios_producto, validar_desactivacion_categoria,
    validar_padre, validar_precio_manual, validar_redondeo_configurado, AccionCodigoBarras,
};
use pos::error::ErrorApi;
use pos::identidad::permisos::UsuarioActual;

fn v<T>(m: &str) -> Result<T, ErrorApi> {
    Err(ErrorApi::Validacion(m.to_string()))
}

fn usuario(permisos: &[&str]) -> UsuarioActual {
    UsuarioActual { id: 1, nombre: "encargado".to_string(), permisos: permisos.iter().map(|p| p.to_string()).collect() }
}

#[test]
fn cascada_de_markup_e_iva_desde_la_categoria_directa() {
    assert_eq!(resolver_porcentaje(Some(3000), 4000), 3000);
    assert_eq!(resolver_porcentaje(None, 4000), 4000);
    let p = producto_para_compra(1, "Yerba".to_string(), None, Some(1050), 4000, 2100, true);
    assert_eq!((p.markup_pct, p.iva_pct, p.controla_vencimiento), (4000, 1050, true));
}

#[test]
fn alta_de_categoria_con_defaults() {
    let u = usuario(&["gestionar_catalogo"]);
    assert_eq!(validar_alta_categoria(&u, " Almacén ", None, None), Ok(("Almacén".to_string(), 4000, 2100)));
    assert_eq!(validar_alta_categoria(&u, "X", Some(99_901), None), v("markup_pct fuera de rango"));
    assert_eq!(validar_alta_categoria(&u, "X", Some(0), Some(-1)), v("iva_pct fuera de rango"));
    assert_eq!(validar_alta_categoria(&u, "  ", None, None), v("el nombre es obligatorio"));
    assert_eq!(
        validar_alta_categoria(&usuario(&[]), "X", None, None),
        Err(ErrorApi::Prohibido("gestionar_catalogo".to_string()))
    );
    assert_eq!(exigir_categoria_nueva(false), Err(ErrorApi::Conflicto("ya existe una categoría con ese nombre".to_string())));
    assert_eq!(exigir_padre_activo(false), v("categoría padre inexistente o inactiva"));
}

#[test]
fn cambios_y_baja_de_categoria() {
    let u = usuario(&["gestionar_catalogo"]);
    assert_eq!(validar_cambios_categoria(&u, Some(99_900), Some(0)), Ok(()));
    assert_eq!(validar_cambios_categoria(&u, None, Some(100_000)), v("iva_pct fuera de rango"));
    assert_eq!(validar_padre(5, Some(5)), v("una categoría no puede ser su propio padre"));
    assert_eq!(validar_padre(5, Some(6)), Ok(()));
    assert_eq!(
        validar_desactivacion_categoria(&u, true),
        Err(ErrorApi::Conflicto("hay productos activos en esta categoría; movelos antes de desactivarla".to_string()))
    );
}

#[test]
fn alta_y_cambios_de_producto() {
    let u = usuario(&["gestionar_catalogo"]);
    assert_eq!(validar_alta_producto(&u, " Fideos 500g ", None, Some(1050)), Ok("Fideos 500g".to_string()));
    assert_eq!(validar_alta_producto(&u, "F", Some(-1), None), v("markup_pct_override fuera de rango"));
    assert_eq!(validar_cambios_producto(&u, Some(None), Some(Some(100_000))), v("iva_pct_override fuera de rango"));
    assert_eq!(validar_cambios_producto(&u, Some(None), None), Ok(()));
    assert_eq!(exigir_categoria_activa(false), v("categoría inexistente o inactiva"));
}

#[test]
fn codigos_del_alta_se_recortan_y_descartan_vacios() {
    let codigos = vec![" 779 ".to_string(), "   ".to_string(), "780".to_string()];
    assert_eq!(normalizar_codigos(&codigos), vec!["779".to_string(), "780".to_string()]);
}

#[test]
fn asignacion_de_codigos_del_alta() {
    let codigos = vec!["1".to_string(), "2".to_string(), "1".to_string()];
    assert_eq!(asignar_codigos_alta(&codigos[..2].to_vec(), &vec![false, false]), Ok(()));
    assert_eq!(
        asignar_codigos_alta(&codigos, &vec![false, false, false]),
        Err(ErrorApi::Conflicto("el código de barras 1 ya está asignado a otro producto".to_string()))
    );
    assert_eq!(
        asignar_codigos_alta(&codigos, &vec![false, true, false]),
        Err(ErrorApi::Conflicto("el código de barras 2 ya está asignado a otro producto".to_string()))
    );
}

#[test]
fn agregar_codigo_de_barras() {
    let u = usuario(&["gestionar_catalogo"]);
    assert_eq!(decidir_codigo_barras(&u, " 77 ", 1, true, None), Ok(("77".to_string(), AccionCodigoBarras::Insertar)));
    assert_eq!(decidir_codigo_barras(&u, "77", 1, true, Some(1)), Ok(("77".to_string(), AccionCodigoBarras::YaAsignado)));
    assert_eq!(
        decidir_codigo_barras(&u, "77", 1, true, Some(2)),
        Err(ErrorApi::Conflicto("el código ya está asignado a otro producto".to_string()))
    );
    assert_eq!(decidir_codigo_barras(&u, "77", 1, false, None), Err(ErrorApi::NoEncontrado));
    assert_eq!(decidir_codigo_barras(&u, "  ", 1, true, None), v("el código es obligatorio"));
}

#[test]
fn precio_manual_y_redondeo_configurado() {
    let u = usuario(&["modificar_precios"]);
    assert_eq!(validar_precio_manual(&u, 0), Ok(()));
    assert_eq!(validar_precio_manual(&u, -1), v("el precio no puede ser negativo"));
    assert_eq!(validar_redondeo_configurado(&u, 1_000_000), Ok(()));
    assert_eq!(validar_redondeo_configurado(&u, 1_000_001), v("el redondeo debe estar entre 0 (sin redondeo) y $10.000"));
    assert_eq!(
        validar_redondeo_configurado(&usuario(&[]), 0),
        Err(ErrorApi::Prohibido("modificar_precios".to_string()))
    );
    assert_eq!(redondeo_precio_configurado(None), 0);
    assert_eq!(redondeo_precio_configurado(Some(10_000)), 10_000);
}
