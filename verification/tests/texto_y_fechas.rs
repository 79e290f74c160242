use organizador_archivos::fechas::{nombre_carpeta_mes, parse_fecha};
use organizador_archivos::texto::{
    entero_a_texto, mismo_texto, natural_a_texto, numero_dos_cifras, texto_cifra,
};

#[test]
fn decimales() {
    assert_eq!(natural_a_texto(0), "0");
    assert_eq!(natural_a_texto(10), "10");
    assert_eq!(natural_a_texto(u64::MAX), "18446744073709551615");
    assert_eq!(entero_a_texto(2026), "2026");
    assert_eq!(entero_a_texto(-7), "-7");
    assert_eq!(entero_a_texto(i32::MIN), "-2147483648");
    assert_eq!(entero_a_texto(i32::MAX), "2147483647");
    assert_eq!(texto_cifra(9), "9");
}

#[test]
fn dos_cifras() {
    assert_eq!(numero_dos_cifras(0), "00");
    assert_eq!(numero_dos_cifras(5), "05");
    assert_eq!(numero_dos_cifras(31), "31");
    assert_eq!(numero_dos_cifras(123), "123");
}

#[test]
fn comparar_textos() {
    assert!(mismo_texto("⚫ Audio", "⚫ Audio"));
    assert!(!mismo_texto("⚫ Audio", "⚫ audio"));
    assert!(!mismo_texto(".tif", ".tiff"));
    assert!(mismo_texto("", ""));
}

#[test]
fn carpeta_de_mes() {
    assert_eq!(nombre_carpeta_mes(2026, 7), "Julio 2026");
    assert_eq!(nombre_carpeta_mes(2026, 1), "Enero 2026");
    assert_eq!(nombre_carpeta_mes(1999, 12), "Diciembre 1999");
    assert_eq!(nombre_carpeta_mes(2026, 0), "Enero 2026");
    assert_eq!(nombre_carpeta_mes(2026, 13), "Diciembre 2026");
    assert_eq!(nombre_carpeta_mes(-5, 3), "Marzo -5");
    assert_eq!(nombre_carpeta_mes(i32::MIN, u32::MAX), "Diciembre -2147483648");
}

#[test]
fn fecha_de_marca() {
    assert_eq!(parse_fecha("20260705143000"), Some((2026, 7, 5)));
    assert_eq!(parse_fecha("20240229"), Some((2024, 2, 29)));
    assert_eq!(parse_fecha("20250229000000"), None);
    assert_eq!(parse_fecha("20261332000000"), None);
    assert_eq!(parse_fecha("2026070"), None);
    assert_eq!(parse_fecha(""), None);
    assert_eq!(parse_fecha("abcdefgh123456"), None);
}
