use pos::clientes::{
    agrupar_renglones, aplicar_condonacion_fifo, aplicar_pago_fifo, aplicar_reduccion_fifo, monto_condonado, monto_contra_asiento, registrar_cargo_de_venta,
    reindexar_precio_producto, saldo_tras_pago, validar_ajuste_cuenta, validar_alta_cliente, validar_cambios_cliente,
    validar_pago, AjusteReprecio, AplicacionFifo, CuentaCliente, PendienteCliente, RenglonCuenta, RenglonPendiente,
};
use pos::error::ErrorApi;
use pos::identidad::permisos::UsuarioActual;
use pos::ventas::MedioPago;

fn usuario(permisos: &[&str]) -> UsuarioActual {
    UsuarioActual { id: 1, nombre: "encargado".to_string(), permisos: permisos.iter().map(|p| p.to_string()).collect() }
}

fn v<T>(m: &str) -> Result<T, ErrorApi> {
    Err(ErrorApi::Validacion(m.to_string()))
}

/// Cliente con límite de crédito de $50,00.
fn dona_rosa(saldo: i64) -> CuentaCliente {
    CuentaCliente { saldo_actual_centavos: saldo, limite_credito_centavos: Some(5000), activo: true }
}

#[test]
fn venta_fiada_inserta_cargo_y_actualiza_saldo() {
    assert_eq!(registrar_cargo_de_venta(Some(dona_rosa(0)), 3000, &usuario(&["vender"])), Ok(3000));
}

#[test]
fn limite_de_credito_bloquea_sin_permiso() {
    let cajero = usuario(&["vender"]);
    assert_eq!(
        registrar_cargo_de_venta(Some(dona_rosa(0)), 6000, &cajero),
        Err(ErrorApi::Prohibido("exceder_limite_credito".to_string()))
    );
    let encargado = usuario(&["vender", "exceder_limite_credito"]);
    assert_eq!(registrar_cargo_de_venta(Some(dona_rosa(0)), 6000, &encargado), Ok(6000));
    // Justo en el límite no bloquea.
    assert_eq!(registrar_cargo_de_venta(Some(dona_rosa(2000)), 3000, &cajero), Ok(5000));
}

#[test]
fn cliente_sin_limite_nunca_bloquea() {
    let tito = CuentaCliente { saldo_actual_centavos: 0, limite_credito_centavos: None, activo: true };
    assert_eq!(registrar_cargo_de_venta(Some(tito), 999_999, &usuario(&[])), Ok(999_999));
}

#[test]
fn cargo_a_cliente_inexistente_o_inactivo() {
    let u = usuario(&[]);
    assert_eq!(registrar_cargo_de_venta(None, 1, &u), v("cliente inexistente"));
    let mut c = dona_rosa(0);
    c.activo = false;
    assert_eq!(registrar_cargo_de_venta(Some(c), 1, &u), v("el cliente está inactivo"));
}

fn renglon(id: u128, pendiente: i64, precio: i64) -> RenglonPendiente {
    RenglonPendiente { id, cantidad_pendiente: pendiente, precio_actual_centavos: Some(precio) }
}

#[test]
fn pago_consume_cargo_items_pendientes_por_fifo() {
    // Dos ventas fiadas de 2 unidades a $10,00/u; paga $25,00: salda el
    // renglón más viejo y la mitad... del segundo (1,5 unidades pendientes).
    let renglones = vec![renglon(1, 2_000, 1000), renglon(2, 2_000, 1000)];
    let aplicado = aplicar_pago_fifo(&renglones, 2500);
    assert_eq!(
        aplicado,
        vec![
            AplicacionFifo { renglon_id: 1, cantidad_aplicada: 2_000, valor_aplicado_centavos: 2000, nueva_pendiente: 0 },
            AplicacionFifo { renglon_id: 2, cantidad_aplicada: 500, valor_aplicado_centavos: 500, nueva_pendiente: 1_500 },
        ]
    );
    assert_eq!(saldo_tras_pago(4000, 2500), 1500);
}

#[test]
fn condonacion_negativa_tambien_consume_fifo() {
    // Una unidad a $30,00; se condona $15,00 → queda pendiente la mitad.
    let condonado = monto_condonado(-1500).unwrap();
    let aplicado = aplicar_condonacion_fifo(&vec![renglon(9, 1_000, 3000)], condonado);
    assert_eq!(aplicado[0].nueva_pendiente, 500);
    assert_eq!(monto_condonado(1500), None);
}

#[test]
fn renglones_sin_precio_no_se_consumen() {
    let renglones = vec![RenglonPendiente { id: 1, cantidad_pendiente: 1_000, precio_actual_centavos: None }, renglon(2, 1_000, 800)];
    let aplicado = aplicar_reduccion_fifo(&renglones, 10_000);
    assert_eq!(aplicado.len(), 1);
    assert_eq!(aplicado[0].renglon_id, 2);
    assert_eq!(aplicar_reduccion_fifo(&renglones, 0), vec![]);
}

#[test]
fn reprecio_automatico_sube_y_baja_la_deuda_pendiente() {
    let pendientes = vec![PendienteCliente { cliente_id: 5, cantidad_pendiente: 3_000 }];
    // Sube a $12,00/u: +$2,00 × 3 = +$6,00.
    assert_eq!(
        reindexar_precio_producto(&pendientes, Some(1000), 1200),
        vec![AjusteReprecio { cliente_id: 5, delta_centavos: 600 }]
    );
    // Baja a $7,00/u: −$5,00 × 3 = −$15,00.
    assert_eq!(
        reindexar_precio_producto(&pendientes, Some(1200), 700),
        vec![AjusteReprecio { cliente_id: 5, delta_centavos: -1500 }]
    );
    // Sin cambio de precio, sin ajustes; sin precio anterior se toma 0.
    assert!(reindexar_precio_producto(&pendientes, Some(700), 700).is_empty());
    assert_eq!(reindexar_precio_producto(&pendientes, None, 100)[0].delta_centavos, 300);
}

#[test]
fn reprecio_de_ida_y_vuelta_se_compensa() {
    let pendientes = vec![PendienteCliente { cliente_id: 5, cantidad_pendiente: 1_333 }];
    let ida = reindexar_precio_producto(&pendientes, Some(1000), 1075);
    let vuelta = reindexar_precio_producto(&pendientes, Some(1075), 1000);
    assert_eq!(ida[0].delta_centavos + vuelta[0].delta_centavos, 0);
}

#[test]
fn anulacion_revierte_el_cargo_del_fiado() {
    let saldo = 3000;
    assert_eq!(saldo + monto_contra_asiento(3000), 0, "el fiado vuelve a cero");
}

#[test]
fn validaciones_de_pagos_y_ajustes() {
    let u = usuario(&["gestionar_clientes"]);
    assert_eq!(validar_pago(&u, 1000, MedioPago::Efectivo), Ok(()));
    assert_eq!(validar_pago(&u, 0, MedioPago::Efectivo), v("el monto del pago debe ser positivo"));
    assert_eq!(
        validar_pago(&u, 10, MedioPago::CuentaCorriente),
        v("la cuenta corriente no se paga con cuenta corriente")
    );
    assert_eq!(
        validar_pago(&usuario(&[]), 10, MedioPago::Efectivo),
        Err(ErrorApi::Prohibido("gestionar_clientes".to_string()))
    );
    assert_eq!(validar_ajuste_cuenta(&u, 0, "x"), v("el monto no puede ser cero"));
    assert_eq!(validar_ajuste_cuenta(&u, -10, "   "), v("el motivo es obligatorio"));
    assert_eq!(validar_ajuste_cuenta(&u, -10, " condonación parcial "), Ok("condonación parcial".to_string()));
}

#[test]
fn validaciones_de_clientes() {
    let u = usuario(&["gestionar_clientes"]);
    assert_eq!(validar_alta_cliente(&u, " Doña Rosa ", Some(5000)), Ok("Doña Rosa".to_string()));
    assert_eq!(validar_alta_cliente(&u, "  ", None), v("el nombre es obligatorio"));
    assert_eq!(validar_alta_cliente(&u, "Tito", Some(-1)), v("el límite no puede ser negativo"));
    assert_eq!(validar_cambios_cliente(&u, Some(Some(-5))), v("el límite no puede ser negativo"));
    assert_eq!(validar_cambios_cliente(&u, Some(None)), Ok(()));
    assert_eq!(validar_cambios_cliente(&u, None), Ok(()));
}

#[test]
fn la_cuenta_lista_los_renglones_de_cada_cargo() {
    let r = |m: u128, p: u128, n: &str| RenglonCuenta {
        movimiento_id: m,
        producto_id: p,
        producto_nombre: n.to_string(),
        cantidad: 1000,
        cantidad_pendiente: 1000,
    };
    let renglones = vec![r(1, 10, "Leche"), r(2, 11, "Pan"), r(1, 12, "Yerba")];
    let grupos = agrupar_renglones(&vec![1, 3, 2], &renglones);
    assert_eq!(grupos.len(), 3);
    assert_eq!(grupos[0].iter().map(|x| x.producto_id).collect::<Vec<_>>(), vec![10, 12]);
    assert!(grupos[1].is_empty());
    assert_eq!(grupos[2][0].producto_nombre, "Pan");
}

#[test]
fn pago_reduce_saldo_y_es_idempotente() {
    // Fiado de $30,00; paga $20,00 en efectivo: saldo global corrido de $10,00.
    let encargado = usuario(&["gestionar_clientes"]);
    assert_eq!(validar_pago(&encargado, 2000, MedioPago::Efectivo), Ok(()));
    assert_eq!(saldo_tras_pago(3000, 2000), 1000);
    // El pago consume a precio corriente el renglón pendiente: quedan 0,333 u.
    // (el reintento con el mismo UUID lo descarta la base antes de llegar acá).
    let renglones = vec![renglon(1, 1_000, 3000)];
    let aplicado = aplicar_pago_fifo(&renglones, 2000);
    assert_eq!(aplicado[0].nueva_pendiente, 333);
}
