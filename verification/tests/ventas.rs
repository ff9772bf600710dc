use pos::error::ErrorApi;
use pos::identidad::permisos::UsuarioActual;
use pos::ventas::caja::{
    abrir_sesion, arqueo_es_calculable, cerrar_sesion, decidir_anulacion, AperturaSesion, Anulacion, CierreSesion,
    SesionCaja,
};
use pos::ventas::sincronizacion::{
    planificar_venta, validar_venta, venta_calculable, ItemVenta, PagoVenta, ProductoVenta, SincronizarVenta,
};
use pos::ventas::{EstadoVenta, MedioPago};

fn item(subtotal: i64, cantidad: i64) -> ItemVenta {
    ItemVenta {
        producto_id: 1,
        producto_nombre: None,
        precio_unitario_centavos: 1000,
        cantidad,
        iva_pct: None,
        descuento_centavos: 0,
        descuento_motivo: None,
        subtotal_centavos: subtotal,
    }
}

fn pago(medio: MedioPago, monto: i64) -> PagoVenta {
    PagoVenta { medio, monto_centavos: monto, referencia_externa: None }
}

fn venta(total: i64, items: Vec<ItemVenta>, pagos: Vec<PagoVenta>, cliente_id: Option<u128>) -> SincronizarVenta {
    SincronizarVenta {
        id: 42,
        sesion_id: 7,
        cliente_id,
        total_centavos: total,
        descuento_centavos: 0,
        descuento_motivo: None,
        items,
        pagos,
    }
}

fn v(m: &str) -> Result<i64, ErrorApi> {
    Err(ErrorApi::Validacion(m.to_string()))
}

#[test]
fn venta_valida_devuelve_el_monto_fiado() {
    let ok = venta(3000, vec![item(3000, 3000)], vec![pago(MedioPago::Efectivo, 3000)], None);
    assert_eq!(validar_venta(&ok), Ok(0));
    let fiada = venta(3000, vec![item(3000, 3000)], vec![pago(MedioPago::CuentaCorriente, 3000)], Some(5));
    assert_eq!(validar_venta(&fiada), Ok(3000));
}

#[test]
fn suma_de_pagos_debe_igualar_total() {
    let mal = venta(
        3000,
        vec![item(3000, 3000)],
        vec![pago(MedioPago::Efectivo, 1000), pago(MedioPago::Tarjeta, 1000)],
        None,
    );
    assert_eq!(validar_venta(&mal), v("la suma de pagos (2000) no coincide con el total (3000)"));
}

#[test]
fn total_debe_cerrar_con_subtotales_y_descuento() {
    let mut mal = venta(3000, vec![item(2000, 2000), item(1500, 1500)], vec![pago(MedioPago::Efectivo, 3000)], None);
    mal.descuento_centavos = 100;
    assert_eq!(validar_venta(&mal), v("el total (3000) no coincide con Σ subtotales (3500) − descuento (100)"));
    mal.descuento_centavos = 500;
    assert_eq!(validar_venta(&mal), Ok(0));
}

#[test]
fn errores_del_documento_en_orden() {
    assert_eq!(validar_venta(&venta(0, vec![], vec![], None)), v("la venta no tiene ítems"));
    assert_eq!(validar_venta(&venta(0, vec![item(0, 1)], vec![], None)), v("la venta no tiene pagos"));
    assert_eq!(
        validar_venta(&venta(-1, vec![item(0, 1)], vec![pago(MedioPago::Efectivo, -1)], None)),
        v("montos negativos")
    );
    assert_eq!(
        validar_venta(&venta(0, vec![item(0, 0)], vec![pago(MedioPago::Efectivo, 0)], None)),
        v("cantidades deben ser positivas")
    );
    let mut negativo = item(0, 1);
    negativo.precio_unitario_centavos = -5;
    assert_eq!(
        validar_venta(&venta(0, vec![item(0, 1), negativo], vec![pago(MedioPago::Efectivo, 0)], None)),
        v("montos de ítem negativos")
    );
}

#[test]
fn fiado_sin_cliente_es_invalido() {
    let r = validar_venta(&venta(1000, vec![item(1000, 1000)], vec![pago(MedioPago::CuentaCorriente, 1000)], None));
    assert_eq!(r, v("el pago con cuenta corriente requiere un cliente identificado"));
}

#[test]
fn fiado_mezclado_con_otro_medio_es_invalido() {
    let r = validar_venta(&venta(
        4000,
        vec![item(4000, 4000)],
        vec![pago(MedioPago::Efectivo, 1000), pago(MedioPago::CuentaCorriente, 3000)],
        Some(5),
    ));
    assert_eq!(r, v("el fiado no se puede combinar con otro medio de pago en el mismo ticket"));
}

#[test]
fn sumas_que_desbordan_se_detectan() {
    let grande = venta(
        i64::MAX,
        vec![item(0, 1)],
        vec![pago(MedioPago::Efectivo, i64::MAX), pago(MedioPago::Efectivo, 1)],
        None,
    );
    assert!(!venta_calculable(&grande));
    let ok = venta(3000, vec![item(3000, 3000)], vec![pago(MedioPago::Efectivo, 3000)], None);
    assert!(venta_calculable(&ok));
}

#[test]
fn snapshots_del_dispositivo_mandan_y_el_catalogo_completa() {
    let mut con_nombre = item(1000, 1000);
    con_nombre.producto_nombre = Some("Pan casero".to_string());
    con_nombre.iva_pct = Some(1050);
    let sin_nombre = item(2000, 2000);
    let catalogo = vec![
        Some(ProductoVenta { nombre: "Pan lactal".to_string(), iva_pct: 2100 }),
        Some(ProductoVenta { nombre: "Leche".to_string(), iva_pct: 2100 }),
    ];
    let plan = planificar_venta(&vec![con_nombre, sin_nombre], &catalogo, 3000).unwrap();
    assert_eq!(plan.renglones[0].producto_nombre, "Pan casero");
    assert_eq!(plan.renglones[0].iva_pct, 1050);
    assert_eq!(plan.renglones[1].producto_nombre, "Leche");
    assert_eq!(plan.renglones[1].iva_pct, 2100);
    assert_eq!(plan.items_fiado.len(), 2);
    assert_eq!(plan.items_fiado[1].producto_nombre, "Leche");
    assert_eq!(plan.items_fiado[1].cantidad, 2000);
    let sin_fiado = planificar_venta(&vec![item(1, 1)], &vec![catalogo[0].clone()], 0).unwrap();
    assert!(sin_fiado.items_fiado.is_empty());
    let r = planificar_venta(&vec![item(1, 1)], &vec![None], 0);
    assert_eq!(r.unwrap_err(), ErrorApi::Validacion("producto inexistente en la venta".to_string()));
}

fn usuario(permisos: &[&str]) -> UsuarioActual {
    UsuarioActual { id: 1, nombre: "caja".to_string(), permisos: permisos.iter().map(|p| p.to_string()).collect() }
}

#[test]
fn apertura_de_sesion() {
    let u = usuario(&["abrir_caja"]);
    assert_eq!(abrir_sesion(&u, 10_000, false, false), Ok(AperturaSesion::Abrir));
    assert_eq!(abrir_sesion(&u, 10_000, true, true), Ok(AperturaSesion::YaExistia));
    assert_eq!(
        abrir_sesion(&u, 10_000, false, true),
        Err(ErrorApi::Conflicto("ya tenés una sesión de caja abierta; cerrala antes de abrir otra".to_string()))
    );
    assert_eq!(
        abrir_sesion(&u, -1, false, false),
        Err(ErrorApi::Validacion("el monto inicial no puede ser negativo".to_string()))
    );
    assert_eq!(abrir_sesion(&usuario(&[]), 0, false, false), Err(ErrorApi::Prohibido("abrir_caja".to_string())));
}

#[test]
fn arqueo_registra_diferencia_sin_corregirla() {
    let u = usuario(&["cerrar_caja"]);
    let mut sesion = Some(SesionCaja {
        monto_inicial_centavos: 10_000,
        cerrada: false,
        monto_contado_centavos: None,
        diferencia_arqueo_centavos: None,
    });
    // Esperado: 10000 inicial + 3000 efectivo = 13000. Contado: 12800.
    let r = cerrar_sesion(&u, 12_800, &mut sesion, 3_000).unwrap();
    assert_eq!(
        r,
        CierreSesion::Cerrada {
            efectivo_esperado_centavos: 13_000,
            monto_contado_centavos: 12_800,
            diferencia_arqueo_centavos: -200,
        }
    );
    // Cierre idempotente: devuelve el arqueo ya registrado.
    let r = cerrar_sesion(&u, 99_999, &mut sesion, 3_000).unwrap();
    assert_eq!(
        r,
        CierreSesion::YaEstabaCerrada { monto_contado_centavos: Some(12_800), diferencia_arqueo_centavos: Some(-200) }
    );
    assert_eq!(sesion.unwrap().diferencia_arqueo_centavos, Some(-200));
}

#[test]
fn cierre_valida_permiso_monto_y_sesion() {
    let mut nada: Option<SesionCaja> = None;
    assert_eq!(cerrar_sesion(&usuario(&["cerrar_caja"]), 0, &mut nada, 0), Err(ErrorApi::NoEncontrado));
    assert_eq!(
        cerrar_sesion(&usuario(&["cerrar_caja"]), -1, &mut nada, 0),
        Err(ErrorApi::Validacion("el monto contado no puede ser negativo".to_string()))
    );
    assert_eq!(cerrar_sesion(&usuario(&[]), 0, &mut nada, 0), Err(ErrorApi::Prohibido("cerrar_caja".to_string())));
    let s = SesionCaja { monto_inicial_centavos: i64::MAX, cerrada: false, monto_contado_centavos: None, diferencia_arqueo_centavos: None };
    assert!(!arqueo_es_calculable(&s, 0, 1));
    assert!(arqueo_es_calculable(&s, 0, 0));
}

#[test]
fn anulacion_de_venta() {
    let u = usuario(&["anular_venta"]);
    assert_eq!(decidir_anulacion(&u, Some(EstadoVenta::Confirmada)), Ok(Anulacion::Anular));
    assert_eq!(decidir_anulacion(&u, Some(EstadoVenta::Anulada)), Ok(Anulacion::YaEstabaAnulada));
    assert_eq!(decidir_anulacion(&u, None), Err(ErrorApi::NoEncontrado));
    assert_eq!(
        decidir_anulacion(&usuario(&["vender"]), Some(EstadoVenta::Confirmada)),
        Err(ErrorApi::Prohibido("anular_venta".to_string()))
    );
}

#[test]
fn venta_fiada_inserta_cargo_en_la_misma_transaccion() {
    // El fiado va por el ticket completo: una unidad a $30,00.
    let fiada = venta(3000, vec![item(3000, 1000)], vec![pago(MedioPago::CuentaCorriente, 3000)], Some(5));
    let monto = validar_venta(&fiada).unwrap();
    assert_eq!(monto, 3000);
    let catalogo = vec![Some(ProductoVenta { nombre: "Yerba 1kg".to_string(), iva_pct: 2100 })];
    let plan = planificar_venta(&fiada.items, &catalogo, monto).unwrap();
    // El renglón del fiado queda pendiente por la cantidad completa.
    assert_eq!(plan.items_fiado.len(), 1);
    assert_eq!(plan.items_fiado[0].producto_id, 1);
    assert_eq!(plan.items_fiado[0].producto_nombre, "Yerba 1kg");
    assert_eq!(plan.items_fiado[0].cantidad, 1000);
    // El cargo lleva el saldo de la cuenta a $30,00.
    let cuenta = pos::clientes::CuentaCliente { saldo_actual_centavos: 0, limite_credito_centavos: None, activo: true };
    assert_eq!(pos::clientes::registrar_cargo_de_venta(Some(cuenta), monto, &usuario(&["vender"])), Ok(3000));
}
