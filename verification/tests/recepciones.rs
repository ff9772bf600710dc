use pos::catalogo::ProductoParaCompra;
use pos::compras::precio::calcular_precio_final_centavos;
use pos::compras::recepcion::{
    exigir_proveedor_activo, item_es_calculable, validar_alta_proveedor, validar_datos_item, AsientoConfirmacion,
    CargarItem, DatosProductoConfirmacion, ItemRecepcion, Recepcion, ResultadoConfirmacion,
};
use pos::compras::EstadoRecepcion;
use pos::error::ErrorApi;
use pos::identidad::permisos::UsuarioActual;

fn borrador(precios_con_iva: Option<bool>) -> Recepcion {
    Recepcion { id: 1, estado: EstadoRecepcion::Borrador, precios_con_iva, items: Vec::new() }
}

fn yerba(controla_vencimiento: bool) -> ProductoParaCompra {
    ProductoParaCompra {
        id: 10,
        nombre: "Yerba 1kg".to_string(),
        markup_pct: 4000,
        iva_pct: 2100,
        controla_vencimiento,
    }
}

fn pedido(producto_id: u128, cantidad: i64, costo: i64) -> CargarItem {
    CargarItem {
        producto_id,
        cantidad,
        costo_centavos: costo,
        costo_incluye_iva: None,
        iva_pct: None,
        markup_pct: None,
        vencimiento: None,
    }
}

fn validacion(m: &str) -> ErrorApi {
    ErrorApi::Validacion(m.to_string())
}

#[test]
fn carga_resuelve_la_cascada_y_calcula_el_precio() {
    // Sin proveedor: el costo se toma con IVA; markup e IVA del producto.
    let mut rec = borrador(None);
    let it = rec.cargar_item(Some(yerba(false)), 0, &pedido(10, 10_000, 1000), 500).unwrap();
    assert_eq!(it.precio_final_centavos, 1400);
    assert!(it.costo_incluye_iva);
    assert_eq!(it.id, 500);
    assert_eq!(rec.items.len(), 1);
    // Proveedor que pasa precios sin IVA: 1000 × 1,21 × 1,40 = 1694.
    let mut rec = borrador(Some(false));
    let it = rec.cargar_item(Some(yerba(false)), 0, &pedido(10, 10_000, 1000), 501).unwrap();
    assert_eq!(it.precio_final_centavos, 1694);
    // El valor explícito del pedido manda sobre el producto.
    let mut rec = borrador(Some(false));
    let mut p = pedido(10, 10_000, 1000);
    p.iva_pct = Some(1050);
    p.markup_pct = Some(3500);
    p.costo_incluye_iva = Some(false);
    let it = rec.cargar_item(Some(yerba(false)), 0, &p, 502).unwrap();
    assert_eq!(it.precio_final_centavos, 1492);
}

#[test]
fn carga_aplica_el_redondeo_comercial() {
    let mut rec = borrador(None);
    let it = rec.cargar_item(Some(yerba(false)), 10_000, &pedido(10, 1_000, 330_000), 9).unwrap();
    // 330000 × 1,40 = 462000 → múltiplo de $100 más cercano: 460000.
    assert_eq!(it.precio_final_centavos, 460_000);
}

#[test]
fn carga_idempotente_pisa_el_item_del_mismo_producto() {
    let mut rec = borrador(None);
    let primero = rec.cargar_item(Some(yerba(false)), 0, &pedido(10, 10_000, 1000), 500).unwrap();
    let segundo = rec.cargar_item(Some(yerba(false)), 0, &pedido(10, 12_000, 1100), 501).unwrap();
    assert_eq!(rec.items.len(), 1, "no se duplica");
    assert_eq!(segundo.id, primero.id, "conserva su identidad");
    assert_eq!(rec.items[0].cantidad, 12_000);
    assert_eq!(rec.items[0].precio_final_centavos, 1540);
    // Reintento exacto: nada cambia.
    let antes = rec.items.clone();
    rec.cargar_item(Some(yerba(false)), 0, &pedido(10, 12_000, 1100), 777).unwrap();
    assert_eq!(rec.items, antes);
}

#[test]
fn carga_rechaza_pedidos_invalidos_sin_tocar_la_recepcion() {
    let mut rec = borrador(None);
    assert_eq!(
        rec.cargar_item(Some(yerba(false)), 0, &pedido(10, 0, 1000), 1),
        Err(validacion("la cantidad debe ser mayor a cero"))
    );
    assert_eq!(
        rec.cargar_item(Some(yerba(false)), 0, &pedido(10, 1000, -1), 1),
        Err(validacion("el costo no puede ser negativo"))
    );
    assert_eq!(
        rec.cargar_item(None, 0, &pedido(10, 1000, 1000), 1),
        Err(validacion("producto inexistente o inactivo"))
    );
    assert_eq!(
        rec.cargar_item(Some(yerba(true)), 0, &pedido(10, 1000, 1000), 1),
        Err(validacion("el producto \"Yerba 1kg\" controla vencimiento: la fecha es obligatoria"))
    );
    let mut p = pedido(10, 1000, 1000);
    p.markup_pct = Some(100_000);
    assert!(matches!(rec.cargar_item(Some(yerba(false)), 0, &p, 1), Err(ErrorApi::Interno(_))));
    assert!(rec.items.is_empty());
    assert_eq!(validar_datos_item(&pedido(10, 1, 0)), Ok(()));
}

#[test]
fn solo_se_carga_y_quita_en_borrador() {
    let mut rec = borrador(None);
    rec.estado = EstadoRecepcion::Confirmada;
    assert_eq!(
        rec.cargar_item(Some(yerba(false)), 0, &pedido(10, 1000, 1000), 1),
        Err(ErrorApi::Conflicto("solo se pueden cargar ítems en una recepción en borrador".to_string()))
    );
    assert_eq!(
        rec.quitar_item(10),
        Err(ErrorApi::Conflicto("solo se pueden quitar ítems de una recepción en borrador".to_string()))
    );
}

#[test]
fn quitar_deshace_la_carga_de_un_producto_nuevo() {
    let mut rec = borrador(None);
    rec.cargar_item(Some(yerba(false)), 0, &pedido(10, 1000, 1000), 1).unwrap();
    let antes = rec.items.clone();
    let mut otro = yerba(false);
    otro.id = 20;
    rec.cargar_item(Some(otro), 0, &pedido(20, 1000, 500), 2).unwrap();
    assert_eq!(rec.items.len(), 2);
    rec.quitar_item(20).unwrap();
    assert_eq!(rec.items, antes);
    // Quitar lo que no está no hace nada.
    rec.quitar_item(99).unwrap();
    assert_eq!(rec.items, antes);
}

fn datos(nombre: &str, controla: bool, precio: Option<i64>) -> DatosProductoConfirmacion {
    DatosProductoConfirmacion { nombre: nombre.to_string(), controla_vencimiento: controla, precio_actual_centavos: precio }
}

#[test]
fn confirmar_aplica_precios_stock_y_lotes() {
    let mut rec = borrador(Some(false));
    let mut p = pedido(10, 24_000, 1000);
    p.vencimiento = Some(20_100);
    rec.cargar_item(Some(yerba(true)), 0, &p, 1).unwrap();
    let r = rec.confirmar(&vec![datos("Yerba 1kg", true, Some(1500))]).unwrap();
    match r {
        ResultadoConfirmacion::Confirmada(asientos) => {
            assert_eq!(
                asientos,
                vec![AsientoConfirmacion {
                    item_id: 1,
                    producto_id: 10,
                    cantidad: 24_000,
                    precio_final_centavos: 1694,
                    costo_normalizado_centavos: 1210,
                    precio_anterior_centavos: Some(1500),
                    vencimiento_lote: Some(20_100),
                }]
            );
        },
        otro => panic!("se esperaba la confirmación: {otro:?}"),
    }
    assert_eq!(rec.estado, EstadoRecepcion::Confirmada);
}

#[test]
fn sin_control_de_vencimiento_no_hay_lote() {
    let mut rec = borrador(None);
    let mut p = pedido(10, 1000, 1000);
    p.vencimiento = Some(20_000);
    rec.cargar_item(Some(yerba(false)), 0, &p, 1).unwrap();
    match rec.confirmar(&vec![datos("Yerba 1kg", false, None)]).unwrap() {
        ResultadoConfirmacion::Confirmada(a) => assert_eq!(a[0].vencimiento_lote, None),
        otro => panic!("{otro:?}"),
    }
}

#[test]
fn confirmar_es_idempotente() {
    let mut rec = borrador(None);
    rec.cargar_item(Some(yerba(false)), 0, &pedido(10, 1000, 1000), 1).unwrap();
    let d = vec![datos("Yerba 1kg", false, None)];
    assert!(matches!(rec.confirmar(&d), Ok(ResultadoConfirmacion::Confirmada(_))));
    let items = rec.items.clone();
    match rec.confirmar(&d) {
        Ok(ResultadoConfirmacion::YaEstabaConfirmada(e)) => assert_eq!(e, EstadoRecepcion::Confirmada),
        otro => panic!("{otro:?}"),
    }
    assert_eq!(rec.items, items);
    assert_eq!(rec.estado, EstadoRecepcion::Confirmada);
    // Una recepción ya confirmada no lee los datos de sus productos.
    match rec.confirmar(&Vec::new()) {
        Ok(ResultadoConfirmacion::YaEstabaConfirmada(e)) => assert_eq!(e, EstadoRecepcion::Confirmada),
        otro => panic!("{otro:?}"),
    }
    assert_eq!(rec.items, items);
}

#[test]
fn no_confirma_sin_vencimiento_obligatorio() {
    let mut rec = borrador(None);
    rec.cargar_item(Some(yerba(false)), 0, &pedido(10, 1000, 1000), 1).unwrap();
    // El producto pasó a controlar vencimiento después de la carga.
    let r = rec.confirmar(&vec![datos("Yerba 1kg", true, None)]);
    assert_eq!(r.unwrap_err(), validacion("el producto \"Yerba 1kg\" controla vencimiento y su ítem no tiene fecha"));
    assert_eq!(rec.estado, EstadoRecepcion::Borrador);
}

#[test]
fn no_confirma_recepcion_vacia() {
    let mut rec = borrador(None);
    assert_eq!(rec.confirmar(&Vec::new()).unwrap_err(), validacion("no se puede confirmar una recepción sin ítems"));
    assert_eq!(rec.estado, EstadoRecepcion::Borrador, "nada aplicado a medias");
}

#[test]
fn costo_que_desborda_no_confirma_nada() {
    let mut rec = borrador(None);
    rec.items.push(ItemRecepcion {
        id: 1,
        producto_id: 10,
        cantidad: 1000,
        costo_centavos: i64::MAX,
        costo_incluye_iva: false,
        iva_pct: 2100,
        markup_pct: 0,
        precio_final_centavos: 1,
        vencimiento: None,
        etiquetado: false,
    });
    assert_eq!(rec.confirmar(&vec![datos("X", false, None)]).unwrap_err(), validacion("el costo calculado desborda"));
    assert_eq!(rec.estado, EstadoRecepcion::Borrador);
}

#[test]
fn calculable_detecta_lo_que_desborda() {
    let rec = borrador(None);
    assert!(item_es_calculable(&rec, &Some(yerba(false)), &pedido(10, 1, 1000), 0));
    // Un precio cerca del máximo de 64 bits con redondeo comercial desbordaría.
    let mut p = pedido(10, 1, i64::MAX - 10);
    p.costo_incluye_iva = Some(true);
    p.markup_pct = Some(0);
    assert!(!item_es_calculable(&rec, &Some(yerba(false)), &p, 100));
    assert!(item_es_calculable(&rec, &Some(yerba(false)), &p, 0));
    // Sin producto, o fuera de borrador, la carga no llega al redondeo.
    assert!(item_es_calculable(&rec, &None, &p, 100));
    let confirmada = Recepcion { estado: EstadoRecepcion::Confirmada, ..borrador(None) };
    assert!(item_es_calculable(&confirmada, &Some(yerba(false)), &p, 100));
}

#[test]
fn precio_que_excede_la_precision_decimal_es_desborde() {
    // Con los dos porcentajes al máximo y un costo enorme, el producto exacto
    // no entra en 96 bits: el precio tampoco entra en 64 y se informa el desborde.
    let mut rec = borrador(None);
    let mut p = pedido(10, 1, i64::MAX);
    p.costo_incluye_iva = Some(false);
    p.iva_pct = Some(99_999);
    p.markup_pct = Some(99_999);
    assert!(item_es_calculable(&rec, &Some(yerba(false)), &p, 0));
    assert_eq!(rec.cargar_item(Some(yerba(false)), 0, &p, 1), Err(validacion("el precio calculado desborda")));
    assert!(rec.items.is_empty());
    assert_eq!(
        calcular_precio_final_centavos(i64::MAX, false, 99_999, 99_999),
        Err(validacion("el precio calculado desborda"))
    );
}

fn usuario(permisos: &[&str]) -> UsuarioActual {
    UsuarioActual { id: 1, nombre: "u".to_string(), permisos: permisos.iter().map(|p| p.to_string()).collect() }
}

#[test]
fn alta_de_proveedor() {
    let u = usuario(&["gestionar_proveedores"]);
    assert_eq!(validar_alta_proveedor(&u, "  Distribuidora  ", None), Ok(("Distribuidora".to_string(), true)));
    assert_eq!(validar_alta_proveedor(&u, "D", Some(false)), Ok(("D".to_string(), false)));
    assert_eq!(validar_alta_proveedor(&u, "   ", None), Err(validacion("el nombre es obligatorio")));
    assert_eq!(
        validar_alta_proveedor(&usuario(&[]), "D", None),
        Err(ErrorApi::Prohibido("gestionar_proveedores".to_string()))
    );
    assert_eq!(exigir_proveedor_activo(true, false), Err(validacion("proveedor inexistente o inactivo")));
    assert_eq!(exigir_proveedor_activo(false, false), Ok(()));
}
