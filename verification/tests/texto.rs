use pos::texto::recortar;

#[test]
fn recortar_coincide_con_trim_para_todo_caracter() {
    // Cada carácter como borde de un texto: se quita exactamente cuando std
    // lo considera espacio en blanco.
    for c in (0u32..=0x10FFFF).filter_map(char::from_u32) {
        let s = format!("{c}a{c}");
        assert_eq!(recortar(&s), s.trim(), "U+{:04X}", c as u32);
    }
}

#[test]
fn recortar_quita_espacios_de_ambos_lados() {
    assert_eq!(recortar("\t  Yerba 1kg \u{3000}\n"), "Yerba 1kg");
    assert_eq!(recortar("   "), "");
}
