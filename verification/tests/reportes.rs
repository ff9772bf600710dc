use pos::reportes::{
    margen_centavos, pagina, resolver_limite, resolver_offset, resolver_rango, resumen_arqueos, sumar_montos,
    ticket_promedio,
};

#[test]
fn limites_y_paginas() {
    assert_eq!(resolver_limite(None, 50, 1, 200), 50);
    assert_eq!(resolver_limite(Some(0), 50, 1, 200), 1);
    assert_eq!(resolver_limite(Some(1000), 50, 1, 200), 200);
    assert_eq!(resolver_offset(Some(-5)), 0);
    assert_eq!(resolver_offset(Some(40)), 40);
    assert_eq!(pagina(51, 50), (true, 50));
    assert_eq!(pagina(50, 50), (false, 50));
}

#[test]
fn rango_por_defecto_son_los_ultimos_30_dias() {
    assert_eq!(resolver_rango(None, None, 20_000), (19_971, 20_000));
    assert_eq!(resolver_rango(None, Some(100), 20_000), (71, 100));
    assert_eq!(resolver_rango(Some(5), None, 20_000), (5, 20_000));
}

#[test]
fn resumen_de_ventas() {
    // Dos ventas confirmadas: 2500 + 9000 = 11500 en dos tickets.
    assert_eq!(ticket_promedio(11_500, 2), 5_750);
    assert_eq!(ticket_promedio(11_500, 0), 0);
    assert_eq!(ticket_promedio(-7, 2), -3);
    assert_eq!(margen_centavos(11_500, 3_500), 8_000);
}

#[test]
fn totales_y_arqueos() {
    assert_eq!(sumar_montos(&vec![1750, 900, 100]), 2750);
    assert_eq!(resumen_arqueos(&vec![Some(-200), None, Some(0), Some(50)]), (-150, 2));
}
