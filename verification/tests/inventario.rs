use pos::error::ErrorApi;
use pos::inventario::ajuste::{
    aplicar_documento_ajuste, evaluar_item_ajuste, validar_documento_ajuste, Existencias, ItemAjuste,
    LoteEnStock, LoteLeido, MovimientoAplicado, ProductoEnStock,
};
use pos::inventario::{
    registrar_entrada_recepcion, registrar_reversa_venta, registrar_salida_venta_fefo, LoteStock, Movimiento,
    StockProducto, TipoMovimiento,
};

// Cantidades en milésimas: 1 unidad = 1000.

#[test]
fn fefo_descuenta_del_lote_mas_proximo_en_cascada() {
    // Dos lotes: el que vence antes (4 u.) llegó después; FEFO igual lo consume primero.
    let mut p = StockProducto { stock: 0, lotes: Vec::new() };
    registrar_entrada_recepcion(&mut p, 10_000, Some(20_030), 1);
    registrar_entrada_recepcion(&mut p, 4_000, Some(20_005), 2);
    assert_eq!(p.stock, 14_000);
    let movs = registrar_salida_venta_fefo(&mut p, 6_000);
    assert_eq!(p.lotes[1].cantidad, 0, "el lote más próximo se agota primero");
    assert_eq!(p.lotes[0].cantidad, 8_000, "el resto sale del siguiente");
    assert_eq!(p.stock, 8_000);
    assert_eq!(movs.len(), 2);
    assert_eq!(movs.iter().map(|m| m.cantidad).sum::<i64>(), -6_000);
    assert!(movs.iter().all(|m| m.tipo == TipoMovimiento::SalidaVenta));
    assert!(movs.contains(&Movimiento { lote_id: Some(2), cantidad: -4_000, tipo: TipoMovimiento::SalidaVenta }));
    assert!(movs.contains(&Movimiento { lote_id: Some(1), cantidad: -2_000, tipo: TipoMovimiento::SalidaVenta }));
}

#[test]
fn stock_negativo_permitido_en_ventas() {
    let mut p = StockProducto { stock: 0, lotes: Vec::new() };
    let movs = registrar_salida_venta_fefo(&mut p, 5_000);
    assert_eq!(p.stock, -5_000);
    assert_eq!(movs, vec![Movimiento { lote_id: None, cantidad: -5_000, tipo: TipoMovimiento::SalidaVenta }]);
}

#[test]
fn lo_que_no_cubren_los_lotes_sale_sin_lote() {
    let mut p = StockProducto {
        stock: 5_000,
        lotes: vec![LoteStock { id: 7, vencimiento: 100, cantidad: 2_000 }],
    };
    let movs = registrar_salida_venta_fefo(&mut p, 3_000);
    assert_eq!(p.lotes[0].cantidad, 0);
    assert_eq!(p.stock, 2_000);
    assert!(movs.contains(&Movimiento { lote_id: None, cantidad: -1_000, tipo: TipoMovimiento::SalidaVenta }));
}

#[test]
fn anulacion_revierte_stock_y_es_idempotente() {
    let mut p = StockProducto { stock: 0, lotes: Vec::new() };
    registrar_entrada_recepcion(&mut p, 10_000, Some(300), 1);
    registrar_entrada_recepcion(&mut p, 5_000, None, 2);
    let antes = p.clone();
    let salida = registrar_salida_venta_fefo(&mut p, 12_000);
    let reversa = registrar_reversa_venta(&mut p, &salida);
    assert_eq!(p, antes, "stock restituido");
    assert_eq!(reversa.len(), salida.len());
    for (r, s) in reversa.iter().zip(salida.iter()) {
        assert_eq!(r.lote_id, s.lote_id);
        assert_eq!(r.cantidad, -s.cantidad);
    }
}

#[test]
fn entrada_sin_vencimiento_no_crea_lote() {
    let mut p = StockProducto { stock: 1_000, lotes: Vec::new() };
    let m = registrar_entrada_recepcion(&mut p, 2_500, None, 9);
    assert_eq!(m, Movimiento { lote_id: None, cantidad: 2_500, tipo: TipoMovimiento::EntradaRecepcion });
    assert!(p.lotes.is_empty());
    assert_eq!(p.stock, 3_500);
}

fn conteo(producto_id: u128, contada: i64) -> ItemAjuste {
    ItemAjuste { producto_id, lote_id: None, delta: None, cantidad_contada: Some(contada), escala: 3 }
}

fn delta(producto_id: u128, lote_id: Option<u128>, d: i64) -> ItemAjuste {
    ItemAjuste { producto_id, lote_id, delta: Some(d), cantidad_contada: None, escala: 3 }
}

fn existencias(stock: i64) -> Existencias {
    Existencias { productos: vec![ProductoEnStock { producto_id: 1, stock, con_fila: true }], lotes: Vec::new() }
}

#[test]
fn conteo_calcula_delta_contra_proyeccion() {
    let mut e = existencias(0);
    let movs = aplicar_documento_ajuste(&vec![conteo(1, 50_000)], &mut e).unwrap();
    assert_eq!(movs, vec![MovimientoAplicado { producto_id: 1, lote_id: None, delta: 50_000, stock_resultante: 50_000 }]);
    let movs = aplicar_documento_ajuste(&vec![conteo(1, 47_000)], &mut e).unwrap();
    assert_eq!(movs[0].delta, -3_000);
    assert_eq!(e.productos[0].stock, 47_000);
}

#[test]
fn ajuste_negativo_valida_disponibilidad() {
    let mut e = existencias(5_000);
    // Rotura de "-10" con stock 5.
    let rotura = ItemAjuste { escala: 0, ..delta(1, None, -10_000) };
    let r = aplicar_documento_ajuste(&vec![rotura], &mut e);
    assert_eq!(
        r,
        Err(ErrorApi::Validacion("el ajuste dejaría el stock en negativo (actual 5.000, delta -10)".to_string()))
    );
    assert_eq!(e.productos[0].stock, 5_000, "nada aplicado");
}

#[test]
fn documento_es_todo_o_nada() {
    let mut e = existencias(5_000);
    let items = vec![delta(1, None, 2_000), delta(1, None, -8_000)];
    assert!(aplicar_documento_ajuste(&items, &mut e).is_err());
    assert_eq!(e.productos[0].stock, 5_000);
    // Los ítems ven el efecto de los anteriores del mismo documento.
    let items = vec![delta(1, None, 4_000), delta(1, None, -8_000)];
    let movs = aplicar_documento_ajuste(&items, &mut e).unwrap();
    assert_eq!(movs[1].stock_resultante, 1_000);
    assert_eq!(e.productos[0].stock, 1_000);
}

#[test]
fn conteo_que_coincide_no_genera_movimiento() {
    let mut e = existencias(3_000);
    let movs = aplicar_documento_ajuste(&vec![conteo(1, 3_000)], &mut e).unwrap();
    assert!(movs.is_empty());
    // Un producto inexistente contado en cero tampoco genera movimiento.
    let movs = aplicar_documento_ajuste(&vec![conteo(99, 0)], &mut e).unwrap();
    assert!(movs.is_empty());
}

#[test]
fn ajuste_de_lote() {
    let mut e = Existencias {
        productos: vec![ProductoEnStock { producto_id: 1, stock: 12_000, con_fila: true }],
        lotes: vec![LoteEnStock { id: 5, producto_id: 1, cantidad: 12_000 }],
    };
    let movs = aplicar_documento_ajuste(&vec![delta(1, Some(5), -12_000)], &mut e).unwrap();
    assert_eq!(movs[0].lote_id, Some(5));
    assert_eq!(e.lotes[0].cantidad, 0);
    assert_eq!(e.productos[0].stock, 0);
    let r = aplicar_documento_ajuste(&vec![delta(1, Some(5), -1)], &mut e);
    assert_eq!(
        r,
        Err(ErrorApi::Validacion("el ajuste dejaría el lote en negativo (actual 0.000, delta -0.001)".to_string()))
    );
}

#[test]
fn errores_de_los_items_en_orden() {
    let v = |m: &str| Err(ErrorApi::Validacion(m.to_string()));
    let ambos = ItemAjuste { producto_id: 1, lote_id: None, delta: Some(1), cantidad_contada: Some(1), escala: 0 };
    assert_eq!(evaluar_item_ajuste(&ambos, true, None, 0, true), v("cada ítem lleva delta o cantidad_contada, exactamente uno"));
    assert_eq!(evaluar_item_ajuste(&delta(1, None, 0), true, None, 0, true), v("el delta no puede ser cero"));
    assert_eq!(evaluar_item_ajuste(&conteo(1, -1), true, None, 0, true), v("la cantidad contada no puede ser negativa"));
    assert_eq!(evaluar_item_ajuste(&delta(1, None, 5), false, None, 0, true), v("producto inexistente"));
    assert_eq!(evaluar_item_ajuste(&delta(1, Some(3), 5), true, None, 0, true), v("lote inexistente"));
    let ajeno = LoteLeido { producto_id: 2, cantidad: 10 };
    assert_eq!(
        evaluar_item_ajuste(&delta(1, Some(3), 5), true, Some(ajeno), 0, true),
        v("el lote no pertenece al producto indicado")
    );
    assert_eq!(validar_documento_ajuste(&Vec::new()), Err(ErrorApi::Validacion("el ajuste no tiene ítems".to_string())));
}

#[test]
fn los_mensajes_muestran_las_cantidades_con_sus_decimales() {
    // Delta enviado como "-10" contra un producto sin fila de stock: el stock
    // leído es el cero que se asume, sin decimales.
    let mut e = Existencias { productos: vec![ProductoEnStock { producto_id: 1, stock: 0, con_fila: false }], lotes: Vec::new() };
    let item = ItemAjuste { producto_id: 1, lote_id: None, delta: Some(-10_000), cantidad_contada: None, escala: 0 };
    assert_eq!(
        aplicar_documento_ajuste(&vec![item], &mut e),
        Err(ErrorApi::Validacion("el ajuste dejaría el stock en negativo (actual 0, delta -10)".to_string()))
    );
    // Con fila de stock, el actual lleva tres decimales; el delta, los suyos.
    let mut e = existencias(5_000);
    let item = ItemAjuste { producto_id: 1, lote_id: None, delta: Some(-10_500), cantidad_contada: None, escala: 1 };
    assert_eq!(
        aplicar_documento_ajuste(&vec![item], &mut e),
        Err(ErrorApi::Validacion("el ajuste dejaría el stock en negativo (actual 5.000, delta -10.5)".to_string()))
    );
    let item = ItemAjuste { producto_id: 1, lote_id: None, delta: Some(-10_000), cantidad_contada: None, escala: 5 };
    assert_eq!(
        aplicar_documento_ajuste(&vec![item], &mut e),
        Err(ErrorApi::Validacion("el ajuste dejaría el stock en negativo (actual 5.000, delta -10.00000)".to_string()))
    );
    // Un ítem aplicado crea la fila: el siguiente ya lee el stock con tres decimales.
    let mut e = Existencias { productos: vec![ProductoEnStock { producto_id: 1, stock: 0, con_fila: false }], lotes: Vec::new() };
    let entra = ItemAjuste { producto_id: 1, lote_id: None, delta: Some(2_000), cantidad_contada: None, escala: 0 };
    let sale = ItemAjuste { producto_id: 1, lote_id: None, delta: Some(-3_000), cantidad_contada: None, escala: 0 };
    assert_eq!(
        aplicar_documento_ajuste(&vec![entra, sale], &mut e),
        Err(ErrorApi::Validacion("el ajuste dejaría el stock en negativo (actual 2.000, delta -3)".to_string()))
    );
}

#[test]
fn la_salida_asienta_un_movimiento_por_lote_en_orden_fefo() {
    let mut p = StockProducto { stock: 0, lotes: Vec::new() };
    registrar_entrada_recepcion(&mut p, 10_000, Some(20_030), 1);
    registrar_entrada_recepcion(&mut p, 4_000, Some(20_005), 2);
    let movs = registrar_salida_venta_fefo(&mut p, 16_000);
    assert_eq!(
        movs,
        vec![
            Movimiento { lote_id: Some(2), cantidad: -4_000, tipo: TipoMovimiento::SalidaVenta },
            Movimiento { lote_id: Some(1), cantidad: -10_000, tipo: TipoMovimiento::SalidaVenta },
            Movimiento { lote_id: None, cantidad: -2_000, tipo: TipoMovimiento::SalidaVenta },
        ]
    );
    assert_eq!(p.stock, -2_000);
}
