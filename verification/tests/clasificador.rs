use organizador_archivos::clasificador::{
    categoria_segun_coincidencias, clasificar_pdf, determinar_categoria_extension,
    determinar_categoria_pdf, get_managed_folders, reglas_pdf_compilan,
};

#[test]
fn test_regex_compilation_and_cv() {
    assert_eq!(determinar_categoria_pdf("mi_cv_juan.pdf"), "⚫ Recursos Humanos");
    assert_eq!(determinar_categoria_pdf("CV Luciana Pierini.2026.pdf"), "⚫ Recursos Humanos");
    assert_eq!(determinar_categoria_pdf("CV-JuanPerez.pdf"), "⚫ Recursos Humanos");
    assert_eq!(determinar_categoria_pdf("2026_Comprobante-FCVTA-38.pdf"), "⚫ Facturas y Notas");
}

#[test]
fn carpetas_gestionadas_en_orden() {
    let esperadas = vec![
        "⚫ Transferencias",
        "⚫ Depósitos",
        "⚫ Comprobantes Varios",
        "⚫ Planillas de Carga",
        "⚫ Detalles Cargas y Descargas",
        "⚫ Detalles de Liquidaciones",
        "⚫ Recibos de Clientes",
        "⚫ Caja y Bancos",
        "⚫ Liquidaciones",
        "⚫ Anticipos",
        "⚫ Remitos y Consignaciones",
        "⚫ Presupuestos y Minutas",
        "⚫ Recursos Humanos",
        "⚫ Facturas y Notas",
        "⚫ Imágenes",
        "⚫ Audio",
        "⚫ Videos",
        "⚫ Planillas Excel",
        "⚫ Presentaciones",
        "⚫ Archivos de Texto",
        "⚫ Ejecutables",
        "⚫ Comprimidos",
        "⚫ Ebooks",
        "⚫ Documentos Varios",
    ];
    assert_eq!(get_managed_folders(), esperadas);
}

#[test]
fn carpetas_empiezan_con_circulo_y_no_se_repiten() {
    let carpetas = get_managed_folders();
    for c in &carpetas {
        assert!(c.starts_with("⚫ "));
    }
    for i in 0..carpetas.len() {
        for j in (i + 1)..carpetas.len() {
            assert_ne!(carpetas[i], carpetas[j]);
        }
    }
}

#[test]
fn extension_conocida() {
    assert_eq!(determinar_categoria_extension(".jpg"), Some("⚫ Imágenes"));
    assert_eq!(determinar_categoria_extension(".heif"), Some("⚫ Imágenes"));
    assert_eq!(determinar_categoria_extension(".opus"), Some("⚫ Audio"));
    assert_eq!(determinar_categoria_extension(".m4v"), Some("⚫ Videos"));
    assert_eq!(determinar_categoria_extension(".xlsm"), Some("⚫ Planillas Excel"));
    assert_eq!(determinar_categoria_extension(".pptx"), Some("⚫ Presentaciones"));
    assert_eq!(determinar_categoria_extension(".rtf"), Some("⚫ Archivos de Texto"));
    assert_eq!(determinar_categoria_extension(".cmd"), Some("⚫ Ejecutables"));
    assert_eq!(determinar_categoria_extension(".7z"), Some("⚫ Comprimidos"));
    assert_eq!(determinar_categoria_extension(".djvu"), Some("⚫ Ebooks"));
}

#[test]
fn extension_sin_categoria() {
    assert_eq!(determinar_categoria_extension(".pdf"), None);
    assert_eq!(determinar_categoria_extension(".xyz"), None);
    assert_eq!(determinar_categoria_extension(".JPG"), None);
    assert_eq!(determinar_categoria_extension("jpg"), None);
    assert_eq!(determinar_categoria_extension(""), None);
}

#[test]
fn cada_extension_en_una_sola_categoria() {
    let todas = [
        ".jpg", ".jpeg", ".png", ".gif", ".bmp", ".webp", ".svg", ".tiff", ".tif", ".heic",
        ".heif", ".mp3", ".wav", ".ogg", ".flac", ".m4a", ".aac", ".wma", ".opus", ".aiff",
        ".mp4", ".mkv", ".avi", ".mov", ".wmv", ".flv", ".webm", ".m4v", ".xls", ".xlsx",
        ".csv", ".ods", ".xlsm", ".ppt", ".pptx", ".doc", ".docx", ".txt", ".rtf", ".exe",
        ".msi", ".bat", ".cmd", ".zip", ".rar", ".7z", ".tar", ".gz", ".epub", ".mobi", ".azw",
        ".azw3", ".lit", ".lrf", ".djvu",
    ];
    for e in todas {
        let c = determinar_categoria_extension(e);
        assert!(c.is_some());
        assert_ne!(c, Some("⚫ Documentos Varios"));
    }
}

#[test]
fn pdf_por_reglas() {
    assert_eq!(determinar_categoria_pdf("Transferencia_123.pdf"), "⚫ Transferencias");
    assert_eq!(determinar_categoria_pdf("boletadeposito_9.pdf"), "⚫ Depósitos");
    assert_eq!(determinar_categoria_pdf("Comprobante-Operacion-1.pdf"), "⚫ Comprobantes Varios");
    assert_eq!(determinar_categoria_pdf("PlanillaDeCarga.pdf"), "⚫ Planillas de Carga");
    assert_eq!(determinar_categoria_pdf("saldoUnCliente.pdf"), "⚫ Caja y Bancos");
    assert_eq!(determinar_categoria_pdf("remito 44.pdf"), "⚫ Remitos y Consignaciones");
    assert_eq!(determinar_categoria_pdf("Presupuesto.pdf"), "⚫ Presupuestos y Minutas");
    assert_eq!(determinar_categoria_pdf("Fact 0001.pdf"), "⚫ Facturas y Notas");
}

#[test]
fn pdf_sin_regla_va_a_documentos_varios() {
    assert_eq!(determinar_categoria_pdf("informe.pdf"), "⚫ Documentos Varios");
    assert_eq!(determinar_categoria_pdf(""), "⚫ Documentos Varios");
    assert_eq!(determinar_categoria_pdf("ACV.pdf"), "⚫ Documentos Varios");
}

#[test]
fn la_primera_regla_gana() {
    assert_eq!(determinar_categoria_pdf("Transferencia_Factura.pdf"), "⚫ Transferencias");
    assert_eq!(determinar_categoria_pdf("Recibocliente Factura.pdf"), "⚫ Recibos de Clientes");
}

#[test]
fn categoria_desde_respuestas() {
    let mut c = vec![false; 14];
    assert_eq!(categoria_segun_coincidencias(&c), "⚫ Documentos Varios");
    c[1] = true;
    c[13] = true;
    assert_eq!(categoria_segun_coincidencias(&c), "⚫ Depósitos");
    assert_eq!(categoria_segun_coincidencias(&vec![]), "⚫ Documentos Varios");
    let mut larga = vec![false; 20];
    larga[15] = true;
    assert_eq!(categoria_segun_coincidencias(&larga), "⚫ Documentos Varios");
}

#[test]
fn reglas_compilan() {
    assert!(reglas_pdf_compilan());
    assert_eq!(clasificar_pdf("mi_cv.pdf"), Some("⚫ Recursos Humanos"));
    assert_eq!(clasificar_pdf("nada.pdf"), Some("⚫ Documentos Varios"));
}
