use pos::compras::precio::{
    calcular_precio_final_centavos, normalizar_costo_con_iva_centavos, redondear_a_multiplo_centavos,
};
use pos::error::ErrorApi;

// Los porcentajes van en centésimos: 21,00 % = 2100.

#[test]
fn costo_con_iva_solo_aplica_markup() {
    // costo $10,00 con IVA incluido, markup 40% → $14,00
    let precio = calcular_precio_final_centavos(1000, true, 2100, 4000).unwrap();
    assert_eq!(precio, 1400);
}

#[test]
fn costo_sin_iva_aplica_iva_y_markup() {
    // costo $10,00 sin IVA, IVA 21%, markup 40% → 1000 × 1.21 × 1.40 = 1694
    let precio = calcular_precio_final_centavos(1000, false, 2100, 4000).unwrap();
    assert_eq!(precio, 1694);
}

#[test]
fn redondea_solo_al_final() {
    // 333 × 1.105 × 1.35 = 496.744875 → 497 (un solo redondeo al final).
    let precio = calcular_precio_final_centavos(333, false, 1050, 3500).unwrap();
    assert_eq!(precio, 497);
}

#[test]
fn medio_centavo_redondea_hacia_arriba() {
    // 250 × 1.10 = 275 con IVA; markup 50% → 412.5 → 413
    let precio = calcular_precio_final_centavos(250, false, 1000, 5000).unwrap();
    assert_eq!(precio, 413);
}

#[test]
fn iva_exento_no_altera_base() {
    let precio = calcular_precio_final_centavos(1000, false, 0, 4000).unwrap();
    assert_eq!(precio, 1400);
}

#[test]
fn redondeo_comercial_al_multiplo() {
    // $4.630 con redondeo a $100 → $4.600 (resto 30 < 50, baja).
    assert_eq!(redondear_a_multiplo_centavos(463_000, 10_000), 460_000);
    // $4.650 → $4.700 (resto 50, sube).
    assert_eq!(redondear_a_multiplo_centavos(465_000, 10_000), 470_000);
    // $4.680 → $4.700 (resto 80 > 50, sube).
    assert_eq!(redondear_a_multiplo_centavos(468_000, 10_000), 470_000);
    // Sin redondeo configurado (0): el precio queda igual.
    assert_eq!(redondear_a_multiplo_centavos(463_000, 0), 463_000);
    // Un precio menor que medio múltiplo no se aplasta a $0.
    assert_eq!(redondear_a_multiplo_centavos(3_000, 10_000), 3_000);
    // Redondeo a $50: $4.630 → $4.650.
    assert_eq!(redondear_a_multiplo_centavos(463_000, 5_000), 465_000);
}

#[test]
fn normalizacion_de_costo() {
    assert_eq!(normalizar_costo_con_iva_centavos(1000, true, 2100).unwrap(), 1000);
    assert_eq!(normalizar_costo_con_iva_centavos(1000, false, 2100).unwrap(), 1210);
    // 999 × 1.105 = 1103.895 → 1104
    assert_eq!(normalizar_costo_con_iva_centavos(999, false, 1050).unwrap(), 1104);
}

#[test]
fn precio_negativo_redondea_lejos_del_cero() {
    // -250 × 1.10 × 1.50 = -412.5 → -413 (mitad lejos del cero)
    assert_eq!(calcular_precio_final_centavos(-250, false, 1000, 5000).unwrap(), -413);
}

#[test]
fn precio_que_desborda_es_error_de_validacion() {
    let r = calcular_precio_final_centavos(i64::MAX, true, 0, 99_999);
    assert_eq!(r, Err(ErrorApi::Validacion("el precio calculado desborda".to_string())));
}

#[test]
fn costo_que_desborda_es_error_de_validacion() {
    let r = normalizar_costo_con_iva_centavos(i64::MAX, false, 2100);
    assert_eq!(r, Err(ErrorApi::Validacion("el costo calculado desborda".to_string())));
}

#[test]
fn redondeo_con_multiplo_uno_no_cambia_nada() {
    assert_eq!(redondear_a_multiplo_centavos(12_345, 1), 12_345);
    assert_eq!(redondear_a_multiplo_centavos(-500, 10_000), -500);
}

#[test]
fn redondeo_es_idempotente() {
    let una = redondear_a_multiplo_centavos(463_000, 10_000);
    assert_eq!(redondear_a_multiplo_centavos(una, 10_000), una);
}

#[test]
fn sin_markup_el_precio_es_el_costo_con_iva() {
    let costo = normalizar_costo_con_iva_centavos(999, false, 1050).unwrap();
    assert_eq!(calcular_precio_final_centavos(999, false, 1050, 0).unwrap(), costo);
}
