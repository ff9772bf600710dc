use pos::compras::recepcion::{ItemRecepcion, Recepcion};
use pos::compras::EstadoRecepcion;
use pos::etiquetado::{
    escanear, estado_pendientes, formato_precio_centavos, recepcion_activa, CandidataEtiquetado,
    ResultadoEscaneo, ResultadoEtiquetado,
};

#[test]
fn sin_centavos_no_muestra_decimales() {
    assert_eq!(formato_precio_centavos(185_000), "$1.850");
}

#[test]
fn con_centavos_usa_coma_decimal() {
    assert_eq!(formato_precio_centavos(185_050), "$1.850,50");
}

#[test]
fn menor_a_mil_sin_separador_de_miles() {
    assert_eq!(formato_precio_centavos(999), "$9,99");
}

#[test]
fn cero() {
    assert_eq!(formato_precio_centavos(0), "$0");
}

#[test]
fn monto_grande_con_varios_separadores() {
    assert_eq!(formato_precio_centavos(12_345_678_900), "$123.456.789");
}

#[test]
fn centavos_con_cero_a_la_izquierda_se_completan() {
    assert_eq!(formato_precio_centavos(100_005), "$1.000,05");
}

#[test]
fn negativo_se_muestra_como_cero() {
    assert_eq!(formato_precio_centavos(-1_500), "$0");
}

#[test]
fn maximo_entero_se_formatea_completo() {
    assert_eq!(formato_precio_centavos(i64::MAX), "$92.233.720.368.547.758,07");
}

fn item(id: u128, producto_id: u128, precio: i64, etiquetado: bool) -> ItemRecepcion {
    ItemRecepcion {
        id,
        producto_id,
        cantidad: 1_000,
        costo_centavos: 1_000,
        costo_incluye_iva: true,
        iva_pct: 2100,
        markup_pct: 4000,
        precio_final_centavos: precio,
        vencimiento: None,
        etiquetado,
    }
}

fn recepcion_confirmada(items: Vec<ItemRecepcion>) -> Recepcion {
    Recepcion { id: 77, estado: EstadoRecepcion::Confirmada, precios_con_iva: None, items }
}

#[test]
fn sin_recepcion_activa_cuando_no_hay_nada_pendiente() {
    let (r, rec) = escanear(None, Some(10), "Yerba 1kg".to_string(), "7790000000001".to_string());
    assert_eq!(r, ResultadoEscaneo::SinRecepcionActiva);
    assert!(rec.is_none());
}

#[test]
fn codigo_desconocido_cuando_el_barcode_no_existe() {
    let rec = recepcion_confirmada(vec![item(1, 10, 1400, false)]);
    let (r, despues) = escanear(Some(rec), None, String::new(), "0000000000000".to_string());
    assert_eq!(r, ResultadoEscaneo::CodigoDesconocido);
    let despues = despues.unwrap();
    assert!(!despues.items[0].etiquetado);
}

#[test]
fn no_en_recepcion_cuando_el_producto_no_pertenece_a_la_recepcion_activa() {
    let rec = recepcion_confirmada(vec![item(1, 10, 1400, false)]);
    let (r, despues) = escanear(Some(rec), Some(99), "Fideos 500g".to_string(), "7790000000099".to_string());
    assert_eq!(r, ResultadoEscaneo::NoEnRecepcion);
    assert_eq!(despues.unwrap().estado, EstadoRecepcion::Confirmada);
}

#[test]
fn ok_y_ya_etiquetado_son_idempotentes_sin_efectos_duplicados() {
    let rec = recepcion_confirmada(vec![item(1, 10, 1400, false), item(2, 20, 500, false)]);
    let (r, despues) = escanear(Some(rec), Some(10), "Yerba 1kg".to_string(), "7790000000001".to_string());
    assert_eq!(
        r,
        ResultadoEscaneo::Etiqueta {
            nombre: "Yerba 1kg".to_string(),
            precio: "$14".to_string(),
            codigo_barras: "7790000000001".to_string(),
            pendientes_restantes: 1,
        }
    );
    let despues = despues.unwrap();
    assert_eq!(despues.estado, EstadoRecepcion::Confirmada);
    assert!(despues.items[0].etiquetado);
    let (r2, otra_vez) = escanear(Some(despues.clone()), Some(10), "Yerba 1kg".to_string(), "7790000000001".to_string());
    assert_eq!(r2, ResultadoEscaneo::YaEtiquetado);
    assert_eq!(otra_vez.unwrap().items, despues.items);
}

#[test]
fn el_ultimo_pendiente_completa_la_recepcion() {
    let rec = recepcion_confirmada(vec![item(1, 10, 50_000, false), item(2, 20, 150_000, false)]);
    let (r, despues) = escanear(Some(rec), Some(10), "Agua 500ml".to_string(), "7790000000010".to_string());
    assert!(matches!(r, ResultadoEscaneo::Etiqueta { pendientes_restantes: 1, .. }));
    let despues = despues.unwrap();
    assert_eq!(despues.estado, EstadoRecepcion::Confirmada, "todavía queda un pendiente");
    let (r, despues) = escanear(Some(despues), Some(20), "Gaseosa 1.5L".to_string(), "7790000000020".to_string());
    assert!(matches!(r, ResultadoEscaneo::Etiqueta { pendientes_restantes: 0, .. }));
    assert_eq!(despues.unwrap().estado, EstadoRecepcion::Completada, "el último pendiente la completa");
}

#[test]
fn estado_reporta_pendientes_de_la_recepcion_activa_y_menos_uno_si_no_hay() {
    assert_eq!(estado_pendientes(&None), -1);
    let rec = recepcion_confirmada(vec![item(1, 10, 1000, false), item(2, 20, 1000, true), item(3, 30, 1000, false)]);
    assert_eq!(estado_pendientes(&Some(rec)), 2);
}

#[test]
fn la_activa_es_la_confirmada_mas_reciente_con_pendientes() {
    let candidatas = vec![
        CandidataEtiquetado { estado: EstadoRecepcion::Confirmada, confirmada_en: Some(100), pendientes: 3 },
        CandidataEtiquetado { estado: EstadoRecepcion::Confirmada, confirmada_en: Some(300), pendientes: 0 },
        CandidataEtiquetado { estado: EstadoRecepcion::Borrador, confirmada_en: None, pendientes: 5 },
        CandidataEtiquetado { estado: EstadoRecepcion::Confirmada, confirmada_en: Some(200), pendientes: 1 },
        CandidataEtiquetado { estado: EstadoRecepcion::Completada, confirmada_en: Some(400), pendientes: 0 },
    ];
    assert_eq!(recepcion_activa(&candidatas), Some(3));
    assert_eq!(recepcion_activa(&vec![candidatas[1], candidatas[2]]), None);
}

#[test]
fn sin_fecha_de_confirmacion_va_primero() {
    // Como en `ORDER BY confirmada_en DESC`, un valor nulo ordena antes.
    let candidatas = vec![
        CandidataEtiquetado { estado: EstadoRecepcion::Confirmada, confirmada_en: Some(500), pendientes: 2 },
        CandidataEtiquetado { estado: EstadoRecepcion::Confirmada, confirmada_en: None, pendientes: 1 },
        CandidataEtiquetado { estado: EstadoRecepcion::Confirmada, confirmada_en: None, pendientes: 4 },
    ];
    assert_eq!(recepcion_activa(&candidatas), Some(1));
}

#[test]
fn etiquetado_completa_la_recepcion() {
    let mut rec = recepcion_confirmada(vec![item(1, 10, 1400, false), item(2, 20, 500, false)]);
    // Etiquetar el primero: la recepción sigue confirmada.
    assert_eq!(
        rec.etiquetar_producto(10),
        ResultadoEtiquetado::Etiquetado { item_id: 1, precio_final_centavos: 1400, pendientes_restantes: 1 }
    );
    assert_eq!(rec.estado, EstadoRecepcion::Confirmada);
    // Reintento del mismo ítem: sin efecto, sigue un pendiente.
    assert_eq!(rec.etiquetar_producto(10), ResultadoEtiquetado::YaEtiquetado);
    assert_eq!(estado_pendientes(&Some(rec.clone())), 1);
    // Etiquetar el último: pasa a completada.
    assert_eq!(
        rec.etiquetar_producto(20),
        ResultadoEtiquetado::Etiquetado { item_id: 2, precio_final_centavos: 500, pendientes_restantes: 0 }
    );
    assert_eq!(rec.estado, EstadoRecepcion::Completada);
}
