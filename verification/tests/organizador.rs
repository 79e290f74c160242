use organizador_archivos::limpieza::orden_de_borrado;
use organizador_archivos::organizador::{
    destino_de_reversion, destino_relativo, es_planificable, planificar_destino,
    planificar_movimientos, sufijo_de_ruta, unir_partes, Entrada, ErrorPlan,
};
use organizador_archivos::rutas::{
    candidato_colision, elegir_destino, nombre_alternativo, resolver_colision,
    resolver_colision_con,
};

fn en_disco(q: &str) -> bool {
    std::path::Path::new(q).exists()
}

#[test]
fn destino_de_pdf_con_fecha() {
    let d = destino_relativo("20260705143000_Factura.pdf", ".pdf").unwrap();
    assert_eq!(d, vec!["⚫ Facturas y Notas", "Julio 2026", "05"]);
    let d = destino_relativo("20261225000000Recibo.pdf", ".pdf").unwrap();
    assert_eq!(d, vec!["⚫ Facturas y Notas", "Diciembre 2026", "25"]);
}

#[test]
fn destino_de_pdf_sin_fecha_valida() {
    assert_eq!(destino_relativo("informe.pdf", ".pdf").unwrap(), vec!["⚫ Documentos Varios"]);
    assert_eq!(
        destino_relativo("20261345000000_x.pdf", ".pdf").unwrap(),
        vec!["⚫ Documentos Varios"]
    );
    assert_eq!(
        destino_relativo("2026070514300_x.pdf", ".pdf").unwrap(),
        vec!["⚫ Documentos Varios"]
    );
    // Eight digits only: no timestamp, though chrono would read a date there.
    assert_eq!(
        destino_relativo("20260705_informe.pdf", ".pdf").unwrap(),
        vec!["⚫ Documentos Varios"]
    );
}

#[test]
fn destino_por_extension() {
    assert_eq!(destino_relativo("foto.jpg", ".jpg").unwrap(), vec!["⚫ Imágenes"]);
    assert_eq!(destino_relativo("20260705143000_foto.jpg", ".jpg").unwrap(), vec!["⚫ Imágenes"]);
    assert_eq!(destino_relativo("x.xyz", ".xyz"), None);
    assert_eq!(destino_relativo("sin_extension", ""), None);
}

#[test]
fn errores_de_plan() {
    assert_eq!(es_planificable("20260705143000_a.pdf"), Ok(()));
    assert_eq!(
        planificar_destino("०१२३४५६७८९०१२३_a.pdf", ".pdf"),
        Err(ErrorPlan::FechaPartida)
    );
    assert_eq!(
        planificar_destino("20260705143000_a.pdf", ".pdf"),
        Ok(Some(vec!["⚫ Documentos Varios".to_string(), "Julio 2026".to_string(), "05".to_string()]))
    );
    assert_eq!(planificar_destino("a.mp3", ".mp3"), Ok(Some(vec!["⚫ Audio".to_string()])));
}

#[test]
fn sufijos() {
    assert_eq!(sufijo_de_ruta("dir/Foto.JPG"), ".jpg");
    assert_eq!(sufijo_de_ruta("dir/archivo.tar.GZ"), ".gz");
    assert_eq!(sufijo_de_ruta("dir/sin_extension"), "");
    assert_eq!(sufijo_de_ruta(".oculto"), "");
}

#[test]
fn nombres_alternativos() {
    assert_eq!(nombre_alternativo("a", 2, ".pdf"), "a_2.pdf");
    assert_eq!(nombre_alternativo("informe", 10, ""), "informe_10");
    assert_eq!(nombre_alternativo("x", -1, ".txt"), "x_-1.txt");
    assert_eq!(candidato_colision("carpeta/a.pdf", 3), "carpeta/a_3.pdf");
    assert_eq!(candidato_colision("carpeta/sin", 2), "carpeta/sin_2");
    assert_eq!(candidato_colision("a.tar.gz", 2), "a.tar_2.gz");
}

#[test]
fn colision_resuelta() {
    let libre = "/no_existe_organizador_xyz/a.pdf".to_string();
    assert_eq!(resolver_colision(libre.clone()), libre);
    // The current folder always exists; it has no file name, so its first
    // candidate is `_2` in the same place.
    assert_eq!(resolver_colision(".".to_string()), "_2");
}

#[test]
fn reversion() {
    assert_eq!(
        destino_de_reversion("/no_existe_organizador_xyz", "a.pdf", &en_disco),
        "/no_existe_organizador_xyz/a.pdf"
    );
}

#[test]
fn unir_varias_partes() {
    let partes = vec!["⚫ Facturas y Notas".to_string(), "Julio 2026".to_string(), "05".to_string()];
    assert_eq!(unir_partes("/base", &partes), "/base/⚫ Facturas y Notas/Julio 2026/05");
    assert_eq!(unir_partes("/base", &vec![]), "/base");
}

#[test]
fn plan_de_una_carpeta() {
    let base = "/no_existe_organizador_xyz";
    let entradas = vec![
        Entrada { ruta: format!("{}/Factura_1.pdf", base), es_archivo: true },
        Entrada { ruta: format!("{}/subcarpeta", base), es_archivo: false },
        Entrada { ruta: format!("{}/foto.PNG", base), es_archivo: true },
        Entrada { ruta: format!("{}/x.desconocida", base), es_archivo: true },
        Entrada { ruta: format!("{}/organizador.exe", base), es_archivo: true },
        Entrada { ruta: format!("{}/20260705143000_Transferencia_1.pdf", base), es_archivo: true },
    ];
    let exe = format!("{}/organizador.exe", base);
    let plan = planificar_movimientos(base, &entradas, Some(exe.as_str()), &en_disco).unwrap();
    assert_eq!(
        plan,
        vec![
            (
                format!("{}/Factura_1.pdf", base),
                format!("{}/⚫ Facturas y Notas/Factura_1.pdf", base)
            ),
            (format!("{}/foto.PNG", base), format!("{}/⚫ Imágenes/foto.PNG", base)),
            (
                format!("{}/20260705143000_Transferencia_1.pdf", base),
                format!("{}/⚫ Transferencias/Julio 2026/05/20260705143000_Transferencia_1.pdf", base)
            ),
        ]
    );
    let sin_exe = planificar_movimientos(base, &entradas, None, &en_disco).unwrap();
    assert_eq!(sin_exe.len(), 4);
    assert_eq!(sin_exe[2].1, format!("{}/⚫ Ejecutables/organizador.exe", base));
}

#[test]
fn plan_con_fecha_partida() {
    let entradas = vec![
        Entrada { ruta: "/no_existe_organizador_xyz/a.txt".to_string(), es_archivo: true },
        Entrada { ruta: "/no_existe_organizador_xyz/०१२३४५६७८९०१२३_a.pdf".to_string(), es_archivo: true },
    ];
    assert_eq!(
        planificar_movimientos("/no_existe_organizador_xyz", &entradas, None, &en_disco),
        Err(ErrorPlan::FechaPartida)
    );
}

#[test]
fn borrado_mas_profundo_primero() {
    assert_eq!(orden_de_borrado(&vec![1, 3, 2, 3]), vec![1, 3, 2, 0]);
    assert_eq!(orden_de_borrado(&vec![]), Vec::<usize>::new());
    assert_eq!(orden_de_borrado(&vec![2, 2, 2]), vec![0, 1, 2]);
    assert_eq!(orden_de_borrado(&vec![1, 2, 3]), vec![2, 1, 0]);
}

#[test]
fn primer_nombre_libre() {
    assert_eq!(elegir_destino("D/f.pdf", &vec![false]), Some("D/f.pdf".to_string()));
    assert_eq!(elegir_destino("D/f.pdf", &vec![true, true, false]), Some("D/f_3.pdf".to_string()));
    assert_eq!(elegir_destino("D/f.pdf", &vec![true, false, false]), Some("D/f_2.pdf".to_string()));
    assert_eq!(elegir_destino("D/a.tar.gz", &vec![true, false]), Some("D/a.tar_2.gz".to_string()));
    assert_eq!(elegir_destino("D/f.pdf", &vec![true, true]), None);
    assert_eq!(elegir_destino("D/f.pdf", &vec![]), None);
}

#[test]
fn colision_con_sonda() {
    let ocupados = |q: &str| q == "D/f.pdf" || q == "D/f_2.pdf";
    assert_eq!(resolver_colision_con("D/f.pdf".to_string(), &ocupados), "D/f_3.pdf");
    assert_eq!(resolver_colision_con("D/g.pdf".to_string(), &ocupados), "D/g.pdf");
    let solo_el = |q: &str| q == "D/a.tar.gz";
    assert_eq!(resolver_colision_con("D/a.tar.gz".to_string(), &solo_el), "D/a.tar_2.gz");
}

#[test]
fn plan_con_destino_ocupado() {
    let entradas = vec![
        Entrada { ruta: "D/f.pdf".to_string(), es_archivo: true },
        Entrada { ruta: "D/FOTO.JPG".to_string(), es_archivo: true },
    ];
    let ocupados = |q: &str| q == "D/⚫ Documentos Varios/f.pdf";
    assert_eq!(
        planificar_movimientos("D", &entradas, None, &ocupados),
        Ok(vec![
            ("D/f.pdf".to_string(), "D/⚫ Documentos Varios/f_2.pdf".to_string()),
            ("D/FOTO.JPG".to_string(), "D/⚫ Imágenes/FOTO.JPG".to_string()),
        ])
    );
    assert_eq!(destino_de_reversion("D", "f.pdf", &|q: &str| q == "D/f.pdf"), "D/f_2.pdf");
}
