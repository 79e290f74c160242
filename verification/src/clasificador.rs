//! The classification rules: the category folders, the name patterns that
//! send a PDF to one of them, and the extensions that send any other file to
//! one of them.

use vstd::prelude::*;

use crate::expresiones::{coincide_regex, compila_regex, regex_coincide, regex_valida};
use crate::texto::mismo_texto;

verus! {

/// Number of categories chosen by the name of a PDF.
pub const NUM_CATEGORIAS_PDF: usize = 14;

/// Number of categories chosen by the extension of a file.
pub const NUM_CATEGORIAS_EXTENSION: usize = 10;

/// The categories chosen by the name of a PDF, in the order their rules are tried.
pub open spec fn nombres_pdf() -> Seq<Seq<char>> {
    seq![
        "⚫ Transferencias"@,
        "⚫ Depósitos"@,
        "⚫ Comprobantes Varios"@,
        "⚫ Planillas de Carga"@,
        "⚫ Detalles Cargas y Descargas"@,
        "⚫ Detalles de Liquidaciones"@,
        "⚫ Recibos de Clientes"@,
        "⚫ Caja y Bancos"@,
        "⚫ Liquidaciones"@,
        "⚫ Anticipos"@,
        "⚫ Remitos y Consignaciones"@,
        "⚫ Presupuestos y Minutas"@,
        "⚫ Recursos Humanos"@,
        "⚫ Facturas y Notas"@,
    ]
}

/// The pattern of each category of `nombres_pdf`, at the same position.
pub open spec fn patrones_pdf() -> Seq<Seq<char>> {
    seq![
        r"(?i)Transferencia_"@,
        r"(?i)BoletaDeposito_"@,
        r"(?i)comprobante-operacion-"@,
        r"(?i)planilladecarga"@,
        r"(?i)detalle_de_cargas-descargas"@,
        r"(?i)detalle_de_liquidaciones"@,
        r"(?i)recibocliente"@,
        r"(?i)PlanillaCaja|saldouncliente|Ultimos_Movimientos|Mayor administrativo"@,
        r"(?i)liquidacion_"@,
        r"(?i)anticipo_"@,
        r"(?i)REMITOS|CONSIGNACIONES|Remito|DVCSG|RMCSG|REMCC"@,
        r"(?i)PRESU"@,
        r"(?i)(?:^|[^A-Za-z])CV(?:[^A-Za-z]|$)|Curriculum|Resume|Descripcion de puesto"@,
        r"(?i)FC__|NC__|Factura|FCVTA|PRVTA|FCCSG|DVVTA|AFIP|Recibo|FACTURA_PRESUPUESTO|Fact\s|Nota de credito"@,
    ]
}

/// The category of a PDF that no rule claims, and of nothing else.
pub open spec fn documentos_varios() -> Seq<char> {
    "⚫ Documentos Varios"@
}

/// The categories chosen by extension, in the order they are looked at.
pub open spec fn nombres_extension() -> Seq<Seq<char>> {
    seq![
        "⚫ Imágenes"@,
        "⚫ Audio"@,
        "⚫ Videos"@,
        "⚫ Planillas Excel"@,
        "⚫ Presentaciones"@,
        "⚫ Archivos de Texto"@,
        "⚫ Ejecutables"@,
        "⚫ Comprimidos"@,
        "⚫ Ebooks"@,
        "⚫ Documentos Varios"@,
    ]
}

/// The extensions (with their leading dot, in lower case) of each category
/// of `nombres_extension`, at the same position.
pub open spec fn extensiones(i: int) -> Set<Seq<char>> {
    if i == 0 {
        set![".jpg"@, ".jpeg"@, ".png"@, ".gif"@, ".bmp"@, ".webp"@, ".svg"@, ".tiff"@, ".tif"@, ".heic"@, ".heif"@]
    } else if i == 1 {
        set![".mp3"@, ".wav"@, ".ogg"@, ".flac"@, ".m4a"@, ".aac"@, ".wma"@, ".opus"@, ".aiff"@]
    } else if i == 2 {
        set![".mp4"@, ".mkv"@, ".avi"@, ".mov"@, ".wmv"@, ".flv"@, ".webm"@, ".m4v"@]
    } else if i == 3 {
        set![".xls"@, ".xlsx"@, ".csv"@, ".ods"@, ".xlsm"@]
    } else if i == 4 {
        set![".ppt"@, ".pptx"@]
    } else if i == 5 {
        set![".doc"@, ".docx"@, ".txt"@, ".rtf"@]
    } else if i == 6 {
        set![".exe"@, ".msi"@, ".bat"@, ".cmd"@]
    } else if i == 7 {
        set![".zip"@, ".rar"@, ".7z"@, ".tar"@, ".gz"@]
    } else if i == 8 {
        set![".epub"@, ".mobi"@, ".azw"@, ".azw3"@, ".lit"@, ".lrf"@, ".djvu"@]
    } else {
        set![".pdf"@]
    }
}

/// Every folder the organizer creates and manages: the PDF categories, then
/// the extension categories.
pub open spec fn carpetas_gestionadas() -> Seq<Seq<char>> {
    nombres_pdf() + nombres_extension()
}

/// The name and the pattern of the PDF rule at position `i`.
fn regla_pdf(i: usize) -> (r: (&'static str, &'static str))
    requires
        i < NUM_CATEGORIAS_PDF,
    ensures
        r.0@ == nombres_pdf()[i as int],
        r.1@ == patrones_pdf()[i as int],
{
    if i == 0 {
        ("⚫ Transferencias", r"(?i)Transferencia_")
    } else if i == 1 {
        ("⚫ Depósitos", r"(?i)BoletaDeposito_")
    } else if i == 2 {
        ("⚫ Comprobantes Varios", r"(?i)comprobante-operacion-")
    } else if i == 3 {
        ("⚫ Planillas de Carga", r"(?i)planilladecarga")
    } else if i == 4 {
        ("⚫ Detalles Cargas y Descargas", r"(?i)detalle_de_cargas-descargas")
    } else if i == 5 {
        ("⚫ Detalles de Liquidaciones", r"(?i)detalle_de_liquidaciones")
    } else if i == 6 {
        ("⚫ Recibos de Clientes", r"(?i)recibocliente")
    } else if i == 7 {
        (
            "⚫ Caja y Bancos",
            r"(?i)PlanillaCaja|saldouncliente|Ultimos_Movimientos|Mayor administrativo",
        )
    } else if i == 8 {
        ("⚫ Liquidaciones", r"(?i)liquidacion_")
    } else if i == 9 {
        ("⚫ Anticipos", r"(?i)anticipo_")
    } else if i == 10 {
        ("⚫ Remitos y Consignaciones", r"(?i)REMITOS|CONSIGNACIONES|Remito|DVCSG|RMCSG|REMCC")
    } else if i == 11 {
        ("⚫ Presupuestos y Minutas", r"(?i)PRESU")
    } else if i == 12 {
        (
            "⚫ Recursos Humanos",
            r"(?i)(?:^|[^A-Za-z])CV(?:[^A-Za-z]|$)|Curriculum|Resume|Descripcion de puesto",
        )
    } else {
        (
            "⚫ Facturas y Notas",
            r"(?i)FC__|NC__|Factura|FCVTA|PRVTA|FCCSG|DVVTA|AFIP|Recibo|FACTURA_PRESUPUESTO|Fact\s|Nota de credito",
        )
    }
}

/// The name of the extension category at position `i`.
fn nombre_extension(i: usize) -> (r: &'static str)
    requires
        i < NUM_CATEGORIAS_EXTENSION,
    ensures
        r@ == nombres_extension()[i as int],
{
    if i == 0 {
        "⚫ Imágenes"
    } else if i == 1 {
        "⚫ Audio"
    } else if i == 2 {
        "⚫ Videos"
    } else if i == 3 {
        "⚫ Planillas Excel"
    } else if i == 4 {
        "⚫ Presentaciones"
    } else if i == 5 {
        "⚫ Archivos de Texto"
    } else if i == 6 {
        "⚫ Ejecutables"
    } else if i == 7 {
        "⚫ Comprimidos"
    } else if i == 8 {
        "⚫ Ebooks"
    } else {
        "⚫ Documentos Varios"
    }
}

/// Whether the extension category at position `i` lists `sufijo`.
fn en_categoria(i: usize, sufijo: &str) -> (r: bool)
    requires
        i < NUM_CATEGORIAS_EXTENSION,
    ensures
        r == extensiones(i as int).contains(sufijo@),
{
    if i == 0 {
        mismo_texto(sufijo, ".jpg") || mismo_texto(sufijo, ".jpeg") || mismo_texto(sufijo, ".png") || mismo_texto(sufijo, ".gif") || mismo_texto(sufijo, ".bmp") || mismo_texto(sufijo, ".webp") || mismo_texto(sufijo, ".svg") || mismo_texto(sufijo, ".tiff") || mismo_texto(sufijo, ".tif") || mismo_texto(sufijo, ".heic") || mismo_texto(sufijo, ".heif")
    } else if i == 1 {
        mismo_texto(sufijo, ".mp3") || mismo_texto(sufijo, ".wav") || mismo_texto(sufijo, ".ogg") || mismo_texto(sufijo, ".flac") || mismo_texto(sufijo, ".m4a") || mismo_texto(sufijo, ".aac") || mismo_texto(sufijo, ".wma") || mismo_texto(sufijo, ".opus") || mismo_texto(sufijo, ".aiff")
    } else if i == 2 {
        mismo_texto(sufijo, ".mp4") || mismo_texto(sufijo, ".mkv") || mismo_texto(sufijo, ".avi") || mismo_texto(sufijo, ".mov") || mismo_texto(sufijo, ".wmv") || mismo_texto(sufijo, ".flv") || mismo_texto(sufijo, ".webm") || mismo_texto(sufijo, ".m4v")
    } else if i == 3 {
        mismo_texto(sufijo, ".xls") || mismo_texto(sufijo, ".xlsx") || mismo_texto(sufijo, ".csv") || mismo_texto(sufijo, ".ods") || mismo_texto(sufijo, ".xlsm")
    } else if i == 4 {
        mismo_texto(sufijo, ".ppt") || mismo_texto(sufijo, ".pptx")
    } else if i == 5 {
        mismo_texto(sufijo, ".doc") || mismo_texto(sufijo, ".docx") || mismo_texto(sufijo, ".txt") || mismo_texto(sufijo, ".rtf")
    } else if i == 6 {
        mismo_texto(sufijo, ".exe") || mismo_texto(sufijo, ".msi") || mismo_texto(sufijo, ".bat") || mismo_texto(sufijo, ".cmd")
    } else if i == 7 {
        mismo_texto(sufijo, ".zip") || mismo_texto(sufijo, ".rar") || mismo_texto(sufijo, ".7z") || mismo_texto(sufijo, ".tar") || mismo_texto(sufijo, ".gz")
    } else if i == 8 {
        mismo_texto(sufijo, ".epub") || mismo_texto(sufijo, ".mobi") || mismo_texto(sufijo, ".azw") || mismo_texto(sufijo, ".azw3") || mismo_texto(sufijo, ".lit") || mismo_texto(sufijo, ".lrf") || mismo_texto(sufijo, ".djvu")
    } else {
        mismo_texto(sufijo, ".pdf")
    }
}

/// Lists every folder the organizer manages: the PDF categories in the order
/// of their rules, then the extension categories.
pub fn get_managed_folders() -> (r: Vec<&'static str>)
    ensures
        r@.map_values(|s: &'static str| s@) == carpetas_gestionadas(),
{
    let mut carpetas: Vec<&'static str> = Vec::new();
    let mut i: usize = 0;
    while i < NUM_CATEGORIAS_PDF
        invariant
            i <= NUM_CATEGORIAS_PDF,
            carpetas@.map_values(|s: &'static str| s@) == nombres_pdf().take(i as int),
        decreases NUM_CATEGORIAS_PDF - i,
    {
        let (nombre, _) = regla_pdf(i);
        carpetas.push(nombre);
        assert(nombres_pdf().take(i + 1) =~= nombres_pdf().take(i as int).push(nombre@));
        assert(carpetas@.map_values(|s: &'static str| s@) =~= nombres_pdf().take(i + 1));
        i = i + 1;
    }
    let mut j: usize = 0;
    while j < NUM_CATEGORIAS_EXTENSION
        invariant
            j <= NUM_CATEGORIAS_EXTENSION,
            carpetas@.map_values(|s: &'static str| s@) == nombres_pdf() + nombres_extension().take(
                j as int,
            ),
        decreases NUM_CATEGORIAS_EXTENSION - j,
    {
        let nombre = nombre_extension(j);
        carpetas.push(nombre);
        assert(nombres_pdf() + nombres_extension().take(j + 1) =~= (nombres_pdf()
            + nombres_extension().take(j as int)).push(nombre@));
        assert(carpetas@.map_values(|s: &'static str| s@) =~= nombres_pdf()
            + nombres_extension().take(j + 1));
        j = j + 1;
    }
    assert(nombres_extension().take(NUM_CATEGORIAS_EXTENSION as int) =~= nombres_extension());
    carpetas
}

/// The category of a file by its extension: the first extension category,
/// other than "⚫ Documentos Varios", whose list holds `sufijo`, looking from
/// position `i` on.
pub open spec fn categoria_extension_desde(sufijo: Seq<char>, i: nat) -> Option<Seq<char>>
    decreases NUM_CATEGORIAS_EXTENSION - i,
{
    if i >= NUM_CATEGORIAS_EXTENSION {
        None
    } else if nombres_extension()[i as int] != documentos_varios() && extensiones(
        i as int,
    ).contains(sufijo) {
        Some(nombres_extension()[i as int])
    } else {
        categoria_extension_desde(sufijo, i + 1)
    }
}

/// The category of a file by its extension (`sufijo` is the extension with
/// its dot, in lower case), or `None` when no category takes it.
pub open spec fn categoria_extension(sufijo: Seq<char>) -> Option<Seq<char>> {
    categoria_extension_desde(sufijo, 0)
}

/// Chooses the category of a file that is not a PDF by its extension
/// (`suffix` is the extension with its leading dot, in lower case): the
/// category whose list holds it, leaving out "⚫ Documentos Varios"; `None`
/// when no category holds it.
pub fn determinar_categoria_extension(suffix: &str) -> (r: Option<&'static str>)
    ensures
        r is None <==> categoria_extension(suffix@) is None,
        r matches Some(n) ==> categoria_extension(suffix@) == Some(n@),
{
    let mut i: usize = 0;
    while i < NUM_CATEGORIAS_EXTENSION
        invariant
            i <= NUM_CATEGORIAS_EXTENSION,
            categoria_extension(suffix@) == categoria_extension_desde(suffix@, i as nat),
        decreases NUM_CATEGORIAS_EXTENSION - i,
    {
        let nombre = nombre_extension(i);
        if !mismo_texto(nombre, "⚫ Documentos Varios") && en_categoria(i, suffix) {
            return Some(nombre);
        }
        i = i + 1;
    }
    None
}

/// The category chosen from the answers of the PDF rules, looking from
/// position `i` on: the category of the first rule that matched, or
/// "⚫ Documentos Varios" when none did.
pub open spec fn categoria_desde(coincidencias: Seq<bool>, i: nat) -> Seq<char>
    decreases coincidencias.len() - i,
{
    if i >= NUM_CATEGORIAS_PDF || i >= coincidencias.len() {
        documentos_varios()
    } else if coincidencias[i as int] {
        nombres_pdf()[i as int]
    } else {
        categoria_desde(coincidencias, i + 1)
    }
}

/// The category of a PDF given, for each rule in order, whether its pattern
/// matched the name.
pub open spec fn categoria_por_coincidencias(coincidencias: Seq<bool>) -> Seq<char> {
    categoria_desde(coincidencias, 0)
}

/// Whether the pattern of each PDF rule matches `nombre`, in rule order.
pub open spec fn coincidencias_pdf(nombre: Seq<char>) -> Seq<bool> {
    Seq::new(NUM_CATEGORIAS_PDF as nat, |i: int| regex_coincide(patrones_pdf()[i], nombre))
}

/// The category of a PDF by its name.
pub open spec fn categoria_pdf(nombre: Seq<char>) -> Seq<char> {
    categoria_por_coincidencias(coincidencias_pdf(nombre))
}

/// Whether every PDF rule's pattern compiles.
pub open spec fn reglas_pdf_validas() -> bool {
    forall|i: int| 0 <= i < NUM_CATEGORIAS_PDF ==> #[trigger] regex_valida(patrones_pdf()[i])
}

/// Chooses the category of a PDF from the answers of its rules: the first
/// rule whose pattern matched, or "⚫ Documentos Varios".
pub fn categoria_segun_coincidencias(coincidencias: &Vec<bool>) -> (r: &'static str)
    ensures
        r@ == categoria_por_coincidencias(coincidencias@),
{
    let mut i: usize = 0;
    while i < NUM_CATEGORIAS_PDF && i < coincidencias.len()
        invariant
            i <= NUM_CATEGORIAS_PDF,
            categoria_por_coincidencias(coincidencias@) == categoria_desde(
                coincidencias@,
                i as nat,
            ),
        decreases NUM_CATEGORIAS_PDF - i,
    {
        if coincidencias[i] {
            let (nombre, _) = regla_pdf(i);
            return nombre;
        }
        i = i + 1;
    }
    "⚫ Documentos Varios"
}

/// Chooses the category of a PDF by its name: the category of the first rule
/// whose pattern matches somewhere in the name, or "⚫ Documentos Varios".
/// Every rule's pattern must compile (`reglas_pdf_compilan` tells).
pub fn determinar_categoria_pdf(file_name: &str) -> (r: &'static str)
    requires
        reglas_pdf_validas(),
    ensures
        r@ == categoria_pdf(file_name@),
{
    let ghost c = coincidencias_pdf(file_name@);
    let mut i: usize = 0;
    while i < NUM_CATEGORIAS_PDF
        invariant
            i <= NUM_CATEGORIAS_PDF,
            reglas_pdf_validas(),
            c == coincidencias_pdf(file_name@),
            categoria_pdf(file_name@) == categoria_desde(c, i as nat),
        decreases NUM_CATEGORIAS_PDF - i,
    {
        let (nombre, patron) = regla_pdf(i);
        assert(regex_valida(patrones_pdf()[i as int]));
        if coincide_regex(patron, file_name) {
            return nombre;
        }
        i = i + 1;
    }
    "⚫ Documentos Varios"
}

/// Whether every PDF rule's pattern compiles.
pub fn reglas_pdf_compilan() -> (r: bool)
    ensures
        r == reglas_pdf_validas(),
{
    let mut i: usize = 0;
    while i < NUM_CATEGORIAS_PDF
        invariant
            i <= NUM_CATEGORIAS_PDF,
            forall|j: int| 0 <= j < i ==> #[trigger] regex_valida(patrones_pdf()[j]),
        decreases NUM_CATEGORIAS_PDF - i,
    {
        let (_, patron) = regla_pdf(i);
        if !compila_regex(patron) {
            return false;
        }
        i = i + 1;
    }
    true
}

/// Chooses the category of a PDF by its name, after checking that every
/// rule's pattern compiles: `None` when one does not, else the category that
/// `determinar_categoria_pdf` gives.
pub fn clasificar_pdf(file_name: &str) -> (r: Option<&'static str>)
    ensures
        r is Some <==> reglas_pdf_validas(),
        r matches Some(n) ==> n@ == categoria_pdf(file_name@),
{
    if reglas_pdf_compilan() {
        Some(determinar_categoria_pdf(file_name))
    } else {
        None
    }
}

proof fn categoria_desde_gestionada(coincidencias: Seq<bool>, i: nat)
    ensures
        carpetas_gestionadas().contains(categoria_desde(coincidencias, i)),
    decreases coincidencias.len() - i,
{
    let todas = carpetas_gestionadas();
    if i >= NUM_CATEGORIAS_PDF || i >= coincidencias.len() {
        assert(todas[23] == documentos_varios());
    } else if coincidencias[i as int] {
        assert(todas[i as int] == nombres_pdf()[i as int]);
    } else {
        categoria_desde_gestionada(coincidencias, i + 1);
    }
}

/// Every category a PDF can be given is one of the managed folders, whatever
/// its rules answer.
pub proof fn categoria_pdf_es_gestionada(coincidencias: Seq<bool>)
    ensures
        carpetas_gestionadas().contains(categoria_por_coincidencias(coincidencias)),
{
    categoria_desde_gestionada(coincidencias, 0);
}

proof fn categoria_extension_desde_gestionada(sufijo: Seq<char>, i: nat)
    ensures
        categoria_extension_desde(sufijo, i) matches Some(n) ==> n != documentos_varios()
            && carpetas_gestionadas().contains(n),
    decreases NUM_CATEGORIAS_EXTENSION - i,
{
    if i < NUM_CATEGORIAS_EXTENSION {
        if nombres_extension()[i as int] != documentos_varios() && extensiones(i as int).contains(
            sufijo,
        ) {
            assert(carpetas_gestionadas()[NUM_CATEGORIAS_PDF + i] == nombres_extension()[i as int]);
        } else {
            categoria_extension_desde_gestionada(sufijo, i + 1);
        }
    }
}

/// A category chosen by extension is one of the managed folders, and never
/// "⚫ Documentos Varios", which only PDFs get.
pub proof fn categoria_extension_es_gestionada(sufijo: Seq<char>)
    ensures
        categoria_extension(sufijo) matches Some(n) ==> n != documentos_varios()
            && carpetas_gestionadas().contains(n),
{
    categoria_extension_desde_gestionada(sufijo, 0);
}


/// Every managed folder name starts with a black circle and a space, so that
/// the folders sort together.
pub proof fn carpetas_empiezan_con_circulo()
    ensures
        forall|i: int|
            0 <= i < carpetas_gestionadas().len() ==> #[trigger] carpetas_gestionadas()[i].take(2)
                == seq!['⚫', ' '],
{
    reveal_strlit("⚫ Transferencias");
    reveal_strlit("⚫ Depósitos");
    reveal_strlit("⚫ Comprobantes Varios");
    reveal_strlit("⚫ Planillas de Carga");
    reveal_strlit("⚫ Detalles Cargas y Descargas");
    reveal_strlit("⚫ Detalles de Liquidaciones");
    reveal_strlit("⚫ Recibos de Clientes");
    reveal_strlit("⚫ Caja y Bancos");
    reveal_strlit("⚫ Liquidaciones");
    reveal_strlit("⚫ Anticipos");
    reveal_strlit("⚫ Remitos y Consignaciones");
    reveal_strlit("⚫ Presupuestos y Minutas");
    reveal_strlit("⚫ Recursos Humanos");
    reveal_strlit("⚫ Facturas y Notas");
    reveal_strlit("⚫ Imágenes");
    reveal_strlit("⚫ Audio");
    reveal_strlit("⚫ Videos");
    reveal_strlit("⚫ Planillas Excel");
    reveal_strlit("⚫ Presentaciones");
    reveal_strlit("⚫ Archivos de Texto");
    reveal_strlit("⚫ Ejecutables");
    reveal_strlit("⚫ Comprimidos");
    reveal_strlit("⚫ Ebooks");
    reveal_strlit("⚫ Documentos Varios");
    assert forall|i: int|
        0 <= i < carpetas_gestionadas().len() implies #[trigger] carpetas_gestionadas()[i].take(2)
        == seq!['⚫', ' '] by {
        assert(carpetas_gestionadas()[i].take(2) =~= seq!['⚫', ' ']);
    }
}

/// The characters of every listed extension (after its dot) and its length.
proof fn conocer_extensiones()
    ensures
        ".jpg"@.len() == 4,
        ".jpg"@[1] == 'j',
        ".jpg"@[2] == 'p',
        ".jpg"@[3] == 'g',
        ".jpeg"@.len() == 5,
        ".jpeg"@[1] == 'j',
        ".jpeg"@[2] == 'p',
        ".jpeg"@[3] == 'e',
        ".jpeg"@[4] == 'g',
        ".png"@.len() == 4,
        ".png"@[1] == 'p',
        ".png"@[2] == 'n',
        ".png"@[3] == 'g',
        ".gif"@.len() == 4,
        ".gif"@[1] == 'g',
        ".gif"@[2] == 'i',
        ".gif"@[3] == 'f',
        ".bmp"@.len() == 4,
        ".bmp"@[1] == 'b',
        ".bmp"@[2] == 'm',
        ".bmp"@[3] == 'p',
        ".webp"@.len() == 5,
        ".webp"@[1] == 'w',
        ".webp"@[2] == 'e',
        ".webp"@[3] == 'b',
        ".webp"@[4] == 'p',
        ".svg"@.len() == 4,
        ".svg"@[1] == 's',
        ".svg"@[2] == 'v',
        ".svg"@[3] == 'g',
        ".tiff"@.len() == 5,
        ".tiff"@[1] == 't',
        ".tiff"@[2] == 'i',
        ".tiff"@[3] == 'f',
        ".tiff"@[4] == 'f',
        ".tif"@.len() == 4,
        ".tif"@[1] == 't',
        ".tif"@[2] == 'i',
        ".tif"@[3] == 'f',
        ".heic"@.len() == 5,
        ".heic"@[1] == 'h',
        ".heic"@[2] == 'e',
        ".heic"@[3] == 'i',
        ".heic"@[4] == 'c',
        ".heif"@.len() == 5,
        ".heif"@[1] == 'h',
        ".heif"@[2] == 'e',
        ".heif"@[3] == 'i',
        ".heif"@[4] == 'f',
        ".mp3"@.len() == 4,
        ".mp3"@[1] == 'm',
        ".mp3"@[2] == 'p',
        ".mp3"@[3] == '3',
        ".wav"@.len() == 4,
        ".wav"@[1] == 'w',
        ".wav"@[2] == 'a',
        ".wav"@[3] == 'v',
        ".ogg"@.len() == 4,
        ".ogg"@[1] == 'o',
        ".ogg"@[2] == 'g',
        ".ogg"@[3] == 'g',
        ".flac"@.len() == 5,
        ".flac"@[1] == 'f',
        ".flac"@[2] == 'l',
        ".flac"@[3] == 'a',
        ".flac"@[4] == 'c',
        ".m4a"@.len() == 4,
        ".m4a"@[1] == 'm',
        ".m4a"@[2] == '4',
        ".m4a"@[3] == 'a',
        ".aac"@.len() == 4,
        ".aac"@[1] == 'a',
        ".aac"@[2] == 'a',
        ".aac"@[3] == 'c',
        ".wma"@.len() == 4,
        ".wma"@[1] == 'w',
        ".wma"@[2] == 'm',
        ".wma"@[3] == 'a',
        ".opus"@.len() == 5,
        ".opus"@[1] == 'o',
        ".opus"@[2] == 'p',
        ".opus"@[3] == 'u',
        ".opus"@[4] == 's',
        ".aiff"@.len() == 5,
        ".aiff"@[1] == 'a',
        ".aiff"@[2] == 'i',
        ".aiff"@[3] == 'f',
        ".aiff"@[4] == 'f',
        ".mp4"@.len() == 4,
        ".mp4"@[1] == 'm',
        ".mp4"@[2] == 'p',
        ".mp4"@[3] == '4',
        ".mkv"@.len() == 4,
        ".mkv"@[1] == 'm',
        ".mkv"@[2] == 'k',
        ".mkv"@[3] == 'v',
        ".avi"@.len() == 4,
        ".avi"@[1] == 'a',
        ".avi"@[2] == 'v',
        ".avi"@[3] == 'i',
        ".mov"@.len() == 4,
        ".mov"@[1] == 'm',
        ".mov"@[2] == 'o',
        ".mov"@[3] == 'v',
        ".wmv"@.len() == 4,
        ".wmv"@[1] == 'w',
        ".wmv"@[2] == 'm',
        ".wmv"@[3] == 'v',
        ".flv"@.len() == 4,
        ".flv"@[1] == 'f',
        ".flv"@[2] == 'l',
        ".flv"@[3] == 'v',
        ".webm"@.len() == 5,
        ".webm"@[1] == 'w',
        ".webm"@[2] == 'e',
        ".webm"@[3] == 'b',
        ".webm"@[4] == 'm',
        ".m4v"@.len() == 4,
        ".m4v"@[1] == 'm',
        ".m4v"@[2] == '4',
        ".m4v"@[3] == 'v',
        ".xls"@.len() == 4,
        ".xls"@[1] == 'x',
        ".xls"@[2] == 'l',
        ".xls"@[3] == 's',
        ".xlsx"@.len() == 5,
        ".xlsx"@[1] == 'x',
        ".xlsx"@[2] == 'l',
        ".xlsx"@[3] == 's',
        ".xlsx"@[4] == 'x',
        ".csv"@.len() == 4,
        ".csv"@[1] == 'c',
        ".csv"@[2] == 's',
        ".csv"@[3] == 'v',
        ".ods"@.len() == 4,
        ".ods"@[1] == 'o',
        ".ods"@[2] == 'd',
        ".ods"@[3] == 's',
        ".xlsm"@.len() == 5,
        ".xlsm"@[1] == 'x',
        ".xlsm"@[2] == 'l',
        ".xlsm"@[3] == 's',
        ".xlsm"@[4] == 'm',
        ".ppt"@.len() == 4,
        ".ppt"@[1] == 'p',
        ".ppt"@[2] == 'p',
        ".ppt"@[3] == 't',
        ".pptx"@.len() == 5,
        ".pptx"@[1] == 'p',
        ".pptx"@[2] == 'p',
        ".pptx"@[3] == 't',
        ".pptx"@[4] == 'x',
        ".doc"@.len() == 4,
        ".doc"@[1] == 'd',
        ".doc"@[2] == 'o',
        ".doc"@[3] == 'c',
        ".docx"@.len() == 5,
        ".docx"@[1] == 'd',
        ".docx"@[2] == 'o',
        ".docx"@[3] == 'c',
        ".docx"@[4] == 'x',
        ".txt"@.len() == 4,
        ".txt"@[1] == 't',
        ".txt"@[2] == 'x',
        ".txt"@[3] == 't',
        ".rtf"@.len() == 4,
        ".rtf"@[1] == 'r',
        ".rtf"@[2] == 't',
        ".rtf"@[3] == 'f',
        ".exe"@.len() == 4,
        ".exe"@[1] == 'e',
        ".exe"@[2] == 'x',
        ".exe"@[3] == 'e',
        ".msi"@.len() == 4,
        ".msi"@[1] == 'm',
        ".msi"@[2] == 's',
        ".msi"@[3] == 'i',
        ".bat"@.len() == 4,
        ".bat"@[1] == 'b',
        ".bat"@[2] == 'a',
        ".bat"@[3] == 't',
        ".cmd"@.len() == 4,
        ".cmd"@[1] == 'c',
        ".cmd"@[2] == 'm',
        ".cmd"@[3] == 'd',
        ".zip"@.len() == 4,
        ".zip"@[1] == 'z',
        ".zip"@[2] == 'i',
        ".zip"@[3] == 'p',
        ".rar"@.len() == 4,
        ".rar"@[1] == 'r',
        ".rar"@[2] == 'a',
        ".rar"@[3] == 'r',
        ".7z"@.len() == 3,
        ".7z"@[1] == '7',
        ".7z"@[2] == 'z',
        ".tar"@.len() == 4,
        ".tar"@[1] == 't',
        ".tar"@[2] == 'a',
        ".tar"@[3] == 'r',
        ".gz"@.len() == 3,
        ".gz"@[1] == 'g',
        ".gz"@[2] == 'z',
        ".epub"@.len() == 5,
        ".epub"@[1] == 'e',
        ".epub"@[2] == 'p',
        ".epub"@[3] == 'u',
        ".epub"@[4] == 'b',
        ".mobi"@.len() == 5,
        ".mobi"@[1] == 'm',
        ".mobi"@[2] == 'o',
        ".mobi"@[3] == 'b',
        ".mobi"@[4] == 'i',
        ".azw"@.len() == 4,
        ".azw"@[1] == 'a',
        ".azw"@[2] == 'z',
        ".azw"@[3] == 'w',
        ".azw3"@.len() == 5,
        ".azw3"@[1] == 'a',
        ".azw3"@[2] == 'z',
        ".azw3"@[3] == 'w',
        ".azw3"@[4] == '3',
        ".lit"@.len() == 4,
        ".lit"@[1] == 'l',
        ".lit"@[2] == 'i',
        ".lit"@[3] == 't',
        ".lrf"@.len() == 4,
        ".lrf"@[1] == 'l',
        ".lrf"@[2] == 'r',
        ".lrf"@[3] == 'f',
        ".djvu"@.len() == 5,
        ".djvu"@[1] == 'd',
        ".djvu"@[2] == 'j',
        ".djvu"@[3] == 'v',
        ".djvu"@[4] == 'u',
        ".pdf"@.len() == 4,
        ".pdf"@[1] == 'p',
        ".pdf"@[2] == 'd',
        ".pdf"@[3] == 'f',
{
    reveal_strlit(".jpg");
    reveal_strlit(".jpeg");
    reveal_strlit(".png");
    reveal_strlit(".gif");
    reveal_strlit(".bmp");
    reveal_strlit(".webp");
    reveal_strlit(".svg");
    reveal_strlit(".tiff");
    reveal_strlit(".tif");
    reveal_strlit(".heic");
    reveal_strlit(".heif");
    reveal_strlit(".mp3");
    reveal_strlit(".wav");
    reveal_strlit(".ogg");
    reveal_strlit(".flac");
    reveal_strlit(".m4a");
    reveal_strlit(".aac");
    reveal_strlit(".wma");
    reveal_strlit(".opus");
    reveal_strlit(".aiff");
    reveal_strlit(".mp4");
    reveal_strlit(".mkv");
    reveal_strlit(".avi");
    reveal_strlit(".mov");
    reveal_strlit(".wmv");
    reveal_strlit(".flv");
    reveal_strlit(".webm");
    reveal_strlit(".m4v");
    reveal_strlit(".xls");
    reveal_strlit(".xlsx");
    reveal_strlit(".csv");
    reveal_strlit(".ods");
    reveal_strlit(".xlsm");
    reveal_strlit(".ppt");
    reveal_strlit(".pptx");
    reveal_strlit(".doc");
    reveal_strlit(".docx");
    reveal_strlit(".txt");
    reveal_strlit(".rtf");
    reveal_strlit(".exe");
    reveal_strlit(".msi");
    reveal_strlit(".bat");
    reveal_strlit(".cmd");
    reveal_strlit(".zip");
    reveal_strlit(".rar");
    reveal_strlit(".7z");
    reveal_strlit(".tar");
    reveal_strlit(".gz");
    reveal_strlit(".epub");
    reveal_strlit(".mobi");
    reveal_strlit(".azw");
    reveal_strlit(".azw3");
    reveal_strlit(".lit");
    reveal_strlit(".lrf");
    reveal_strlit(".djvu");
    reveal_strlit(".pdf");
}

/// No extension is listed in two categories, so the category an extension
/// gets does not depend on the order in which the categories are looked at.
pub proof fn extensiones_disjuntas(i: int, j: int, sufijo: Seq<char>)
    requires
        0 <= i < NUM_CATEGORIAS_EXTENSION,
        0 <= j < NUM_CATEGORIAS_EXTENSION,
        i != j,
        extensiones(i).contains(sufijo),
    ensures
        !extensiones(j).contains(sufijo),
{
    conocer_extensiones();
}

proof fn categoria_extension_desde_llega(sufijo: Seq<char>, k: nat, i: int)
    requires
        k <= i < NUM_CATEGORIAS_EXTENSION,
        nombres_extension()[i] != documentos_varios(),
        extensiones(i).contains(sufijo),
    ensures
        categoria_extension_desde(sufijo, k) == Some(nombres_extension()[i]),
    decreases i - k,
{
    if k < i {
        extensiones_disjuntas(i, k as int, sufijo);
        categoria_extension_desde_llega(sufijo, k + 1, i);
    }
}

/// The category of an extension is the category that lists it (other than
/// "⚫ Documentos Varios"), wherever that category stands in the order.
pub proof fn categoria_extension_es_la_que_la_lista(sufijo: Seq<char>, i: int)
    requires
        0 <= i < NUM_CATEGORIAS_EXTENSION,
        nombres_extension()[i] != documentos_varios(),
        extensiones(i).contains(sufijo),
    ensures
        categoria_extension(sufijo) == Some(nombres_extension()[i]),
{
    categoria_extension_desde_llega(sufijo, 0, i);
}

proof fn categoria_extension_desde_sin_lista(sufijo: Seq<char>, k: nat)
    requires
        forall|i: int|
            k <= i < NUM_CATEGORIAS_EXTENSION ==> !(nombres_extension()[i] != documentos_varios()
                && #[trigger] extensiones(i).contains(sufijo)),
    ensures
        categoria_extension_desde(sufijo, k) is None,
    decreases NUM_CATEGORIAS_EXTENSION - k,
{
    if k < NUM_CATEGORIAS_EXTENSION {
        assert(!(nombres_extension()[k as int] != documentos_varios() && extensiones(
            k as int,
        ).contains(sufijo)));
        categoria_extension_desde_sin_lista(sufijo, k + 1);
    }
}

/// An extension that no category lists (leaving "⚫ Documentos Varios"
/// aside) gets no category.
pub proof fn extension_sin_categoria(sufijo: Seq<char>)
    requires
        forall|i: int|
            0 <= i < NUM_CATEGORIAS_EXTENSION ==> !(nombres_extension()[i] != documentos_varios()
                && #[trigger] extensiones(i).contains(sufijo)),
    ensures
        categoria_extension(sufijo) is None,
{
    categoria_extension_desde_sin_lista(sufijo, 0);
}

/// The position of a managed folder name, told apart by its length and its
/// first letter (-1 for any other text).
spec fn posicion_de_carpeta(s: Seq<char>) -> int {
    if s.len() == 16 && s[2] == 'T' {
        0
    } else if s.len() == 11 && s[2] == 'D' {
        1
    } else if s.len() == 21 && s[2] == 'C' {
        2
    } else if s.len() == 20 && s[2] == 'P' {
        3
    } else if s.len() == 29 && s[2] == 'D' {
        4
    } else if s.len() == 27 && s[2] == 'D' {
        5
    } else if s.len() == 21 && s[2] == 'R' {
        6
    } else if s.len() == 15 && s[2] == 'C' {
        7
    } else if s.len() == 15 && s[2] == 'L' {
        8
    } else if s.len() == 11 && s[2] == 'A' {
        9
    } else if s.len() == 26 && s[2] == 'R' {
        10
    } else if s.len() == 24 && s[2] == 'P' {
        11
    } else if s.len() == 18 && s[2] == 'R' {
        12
    } else if s.len() == 18 && s[2] == 'F' {
        13
    } else if s.len() == 10 && s[2] == 'I' {
        14
    } else if s.len() == 7 && s[2] == 'A' {
        15
    } else if s.len() == 8 && s[2] == 'V' {
        16
    } else if s.len() == 17 && s[2] == 'P' {
        17
    } else if s.len() == 16 && s[2] == 'P' {
        18
    } else if s.len() == 19 && s[2] == 'A' {
        19
    } else if s.len() == 13 && s[2] == 'E' {
        20
    } else if s.len() == 13 && s[2] == 'C' {
        21
    } else if s.len() == 8 && s[2] == 'E' {
        22
    } else if s.len() == 19 && s[2] == 'D' {
        23
    } else {
        -1
    }
}

proof fn posicion_de_cada_carpeta()
    ensures
        forall|k: int|
            0 <= k < carpetas_gestionadas().len() ==> posicion_de_carpeta(
                #[trigger] carpetas_gestionadas()[k],
            ) == k,
{
    reveal_strlit("⚫ Transferencias");
    reveal_strlit("⚫ Depósitos");
    reveal_strlit("⚫ Comprobantes Varios");
    reveal_strlit("⚫ Planillas de Carga");
    reveal_strlit("⚫ Detalles Cargas y Descargas");
    reveal_strlit("⚫ Detalles de Liquidaciones");
    reveal_strlit("⚫ Recibos de Clientes");
    reveal_strlit("⚫ Caja y Bancos");
    reveal_strlit("⚫ Liquidaciones");
    reveal_strlit("⚫ Anticipos");
    reveal_strlit("⚫ Remitos y Consignaciones");
    reveal_strlit("⚫ Presupuestos y Minutas");
    reveal_strlit("⚫ Recursos Humanos");
    reveal_strlit("⚫ Facturas y Notas");
    reveal_strlit("⚫ Imágenes");
    reveal_strlit("⚫ Audio");
    reveal_strlit("⚫ Videos");
    reveal_strlit("⚫ Planillas Excel");
    reveal_strlit("⚫ Presentaciones");
    reveal_strlit("⚫ Archivos de Texto");
    reveal_strlit("⚫ Ejecutables");
    reveal_strlit("⚫ Comprimidos");
    reveal_strlit("⚫ Ebooks");
    reveal_strlit("⚫ Documentos Varios");
    assert forall|k: int| 0 <= k < carpetas_gestionadas().len() implies posicion_de_carpeta(
        #[trigger] carpetas_gestionadas()[k],
    ) == k by {
        if k == 0 {
        } else if k == 1 {
        } else if k == 2 {
        } else if k == 3 {
        } else if k == 4 {
        } else if k == 5 {
        } else if k == 6 {
        } else if k == 7 {
        } else if k == 8 {
        } else if k == 9 {
        } else if k == 10 {
        } else if k == 11 {
        } else if k == 12 {
        } else if k == 13 {
        } else if k == 14 {
        } else if k == 15 {
        } else if k == 16 {
        } else if k == 17 {
        } else if k == 18 {
        } else if k == 19 {
        } else if k == 20 {
        } else if k == 21 {
        } else if k == 22 {
        } else {
        }
    }
}

/// The managed folder names are all different: no folder is listed twice,
/// so reverting walks each one once.
pub proof fn carpetas_distintas()
    ensures
        carpetas_gestionadas().no_duplicates(),
{
    posicion_de_cada_carpeta();
}

proof fn categoria_desde_llega(coincidencias: Seq<bool>, k: nat, i: int)
    requires
        k <= i < NUM_CATEGORIAS_PDF,
        i < coincidencias.len(),
        coincidencias[i],
        forall|j: int| 0 <= j < i ==> !coincidencias[j],
    ensures
        categoria_desde(coincidencias, k) == nombres_pdf()[i],
    decreases i - k,
{
    if k < i {
        categoria_desde_llega(coincidencias, k + 1, i);
    }
}

/// A PDF gets the category of the first rule whose pattern matched.
pub proof fn categoria_es_la_primera_regla(coincidencias: Seq<bool>, i: int)
    requires
        0 <= i < NUM_CATEGORIAS_PDF,
        i < coincidencias.len(),
        coincidencias[i],
        forall|j: int| 0 <= j < i ==> !coincidencias[j],
    ensures
        categoria_por_coincidencias(coincidencias) == nombres_pdf()[i],
{
    categoria_desde_llega(coincidencias, 0, i);
}

proof fn categoria_desde_sin_regla(coincidencias: Seq<bool>, k: nat)
    requires
        forall|j: int|
            k <= j < NUM_CATEGORIAS_PDF && j < coincidencias.len() ==> !coincidencias[j],
    ensures
        categoria_desde(coincidencias, k) == documentos_varios(),
    decreases coincidencias.len() - k,
{
    if k < NUM_CATEGORIAS_PDF && k < coincidencias.len() {
        categoria_desde_sin_regla(coincidencias, k + 1);
    }
}

/// A PDF that no rule's pattern matches goes to "⚫ Documentos Varios".
pub proof fn categoria_sin_regla(coincidencias: Seq<bool>)
    requires
        forall|j: int| 0 <= j < NUM_CATEGORIAS_PDF && j < coincidencias.len() ==> !coincidencias[j],
    ensures
        categoria_por_coincidencias(coincidencias) == documentos_varios(),
{
    categoria_desde_sin_regla(coincidencias, 0);
}

/// Each extension of the classification goes to the category that lists it:
/// images, audio, video, spreadsheets, presentations, text documents,
/// executables, archives and e-books; ".pdf" gets no category by extension.
pub proof fn categoria_de_cada_extension()
    ensures
        categoria_extension(".jpg"@) == Some("⚫ Imágenes"@),
        categoria_extension(".jpeg"@) == Some("⚫ Imágenes"@),
        categoria_extension(".png"@) == Some("⚫ Imágenes"@),
        categoria_extension(".gif"@) == Some("⚫ Imágenes"@),
        categoria_extension(".bmp"@) == Some("⚫ Imágenes"@),
        categoria_extension(".webp"@) == Some("⚫ Imágenes"@),
        categoria_extension(".svg"@) == Some("⚫ Imágenes"@),
        categoria_extension(".tiff"@) == Some("⚫ Imágenes"@),
        categoria_extension(".tif"@) == Some("⚫ Imágenes"@),
        categoria_extension(".heic"@) == Some("⚫ Imágenes"@),
        categoria_extension(".heif"@) == Some("⚫ Imágenes"@),
        categoria_extension(".mp3"@) == Some("⚫ Audio"@),
        categoria_extension(".wav"@) == Some("⚫ Audio"@),
        categoria_extension(".ogg"@) == Some("⚫ Audio"@),
        categoria_extension(".flac"@) == Some("⚫ Audio"@),
        categoria_extension(".m4a"@) == Some("⚫ Audio"@),
        categoria_extension(".aac"@) == Some("⚫ Audio"@),
        categoria_extension(".wma"@) == Some("⚫ Audio"@),
        categoria_extension(".opus"@) == Some("⚫ Audio"@),
        categoria_extension(".aiff"@) == Some("⚫ Audio"@),
        categoria_extension(".mp4"@) == Some("⚫ Videos"@),
        categoria_extension(".mkv"@) == Some("⚫ Videos"@),
        categoria_extension(".avi"@) == Some("⚫ Videos"@),
        categoria_extension(".mov"@) == Some("⚫ Videos"@),
        categoria_extension(".wmv"@) == Some("⚫ Videos"@),
        categoria_extension(".flv"@) == Some("⚫ Videos"@),
        categoria_extension(".webm"@) == Some("⚫ Videos"@),
        categoria_extension(".m4v"@) == Some("⚫ Videos"@),
        categoria_extension(".xls"@) == Some("⚫ Planillas Excel"@),
        categoria_extension(".xlsx"@) == Some("⚫ Planillas Excel"@),
        categoria_extension(".csv"@) == Some("⚫ Planillas Excel"@),
        categoria_extension(".ods"@) == Some("⚫ Planillas Excel"@),
        categoria_extension(".xlsm"@) == Some("⚫ Planillas Excel"@),
        categoria_extension(".ppt"@) == Some("⚫ Presentaciones"@),
        categoria_extension(".pptx"@) == Some("⚫ Presentaciones"@),
        categoria_extension(".doc"@) == Some("⚫ Archivos de Texto"@),
        categoria_extension(".docx"@) == Some("⚫ Archivos de Texto"@),
        categoria_extension(".txt"@) == Some("⚫ Archivos de Texto"@),
        categoria_extension(".rtf"@) == Some("⚫ Archivos de Texto"@),
        categoria_extension(".exe"@) == Some("⚫ Ejecutables"@),
        categoria_extension(".msi"@) == Some("⚫ Ejecutables"@),
        categoria_extension(".bat"@) == Some("⚫ Ejecutables"@),
        categoria_extension(".cmd"@) == Some("⚫ Ejecutables"@),
        categoria_extension(".zip"@) == Some("⚫ Comprimidos"@),
        categoria_extension(".rar"@) == Some("⚫ Comprimidos"@),
        categoria_extension(".7z"@) == Some("⚫ Comprimidos"@),
        categoria_extension(".tar"@) == Some("⚫ Comprimidos"@),
        categoria_extension(".gz"@) == Some("⚫ Comprimidos"@),
        categoria_extension(".epub"@) == Some("⚫ Ebooks"@),
        categoria_extension(".mobi"@) == Some("⚫ Ebooks"@),
        categoria_extension(".azw"@) == Some("⚫ Ebooks"@),
        categoria_extension(".azw3"@) == Some("⚫ Ebooks"@),
        categoria_extension(".lit"@) == Some("⚫ Ebooks"@),
        categoria_extension(".lrf"@) == Some("⚫ Ebooks"@),
        categoria_extension(".djvu"@) == Some("⚫ Ebooks"@),
        categoria_extension(".pdf"@) is None,
{
    carpetas_distintas();
    assert forall|i: int| 0 <= i < 9 implies nombres_extension()[i] != documentos_varios() by {
        assert(carpetas_gestionadas()[NUM_CATEGORIAS_PDF + i] == nombres_extension()[i]);
        assert(carpetas_gestionadas()[23] == documentos_varios());
    }
    categoria_extension_es_la_que_la_lista(".jpg"@, 0);
    categoria_extension_es_la_que_la_lista(".jpeg"@, 0);
    categoria_extension_es_la_que_la_lista(".png"@, 0);
    categoria_extension_es_la_que_la_lista(".gif"@, 0);
    categoria_extension_es_la_que_la_lista(".bmp"@, 0);
    categoria_extension_es_la_que_la_lista(".webp"@, 0);
    categoria_extension_es_la_que_la_lista(".svg"@, 0);
    categoria_extension_es_la_que_la_lista(".tiff"@, 0);
    categoria_extension_es_la_que_la_lista(".tif"@, 0);
    categoria_extension_es_la_que_la_lista(".heic"@, 0);
    categoria_extension_es_la_que_la_lista(".heif"@, 0);
    categoria_extension_es_la_que_la_lista(".mp3"@, 1);
    categoria_extension_es_la_que_la_lista(".wav"@, 1);
    categoria_extension_es_la_que_la_lista(".ogg"@, 1);
    categoria_extension_es_la_que_la_lista(".flac"@, 1);
    categoria_extension_es_la_que_la_lista(".m4a"@, 1);
    categoria_extension_es_la_que_la_lista(".aac"@, 1);
    categoria_extension_es_la_que_la_lista(".wma"@, 1);
    categoria_extension_es_la_que_la_lista(".opus"@, 1);
    categoria_extension_es_la_que_la_lista(".aiff"@, 1);
    categoria_extension_es_la_que_la_lista(".mp4"@, 2);
    categoria_extension_es_la_que_la_lista(".mkv"@, 2);
    categoria_extension_es_la_que_la_lista(".avi"@, 2);
    categoria_extension_es_la_que_la_lista(".mov"@, 2);
    categoria_extension_es_la_que_la_lista(".wmv"@, 2);
    categoria_extension_es_la_que_la_lista(".flv"@, 2);
    categoria_extension_es_la_que_la_lista(".webm"@, 2);
    categoria_extension_es_la_que_la_lista(".m4v"@, 2);
    categoria_extension_es_la_que_la_lista(".xls"@, 3);
    categoria_extension_es_la_que_la_lista(".xlsx"@, 3);
    categoria_extension_es_la_que_la_lista(".csv"@, 3);
    categoria_extension_es_la_que_la_lista(".ods"@, 3);
    categoria_extension_es_la_que_la_lista(".xlsm"@, 3);
    categoria_extension_es_la_que_la_lista(".ppt"@, 4);
    categoria_extension_es_la_que_la_lista(".pptx"@, 4);
    categoria_extension_es_la_que_la_lista(".doc"@, 5);
    categoria_extension_es_la_que_la_lista(".docx"@, 5);
    categoria_extension_es_la_que_la_lista(".txt"@, 5);
    categoria_extension_es_la_que_la_lista(".rtf"@, 5);
    categoria_extension_es_la_que_la_lista(".exe"@, 6);
    categoria_extension_es_la_que_la_lista(".msi"@, 6);
    categoria_extension_es_la_que_la_lista(".bat"@, 6);
    categoria_extension_es_la_que_la_lista(".cmd"@, 6);
    categoria_extension_es_la_que_la_lista(".zip"@, 7);
    categoria_extension_es_la_que_la_lista(".rar"@, 7);
    categoria_extension_es_la_que_la_lista(".7z"@, 7);
    categoria_extension_es_la_que_la_lista(".tar"@, 7);
    categoria_extension_es_la_que_la_lista(".gz"@, 7);
    categoria_extension_es_la_que_la_lista(".epub"@, 8);
    categoria_extension_es_la_que_la_lista(".mobi"@, 8);
    categoria_extension_es_la_que_la_lista(".azw"@, 8);
    categoria_extension_es_la_que_la_lista(".azw3"@, 8);
    categoria_extension_es_la_que_la_lista(".lit"@, 8);
    categoria_extension_es_la_que_la_lista(".lrf"@, 8);
    categoria_extension_es_la_que_la_lista(".djvu"@, 8);
    assert forall|i: int|
        0 <= i < NUM_CATEGORIAS_EXTENSION implies !(nombres_extension()[i] != documentos_varios()
        && #[trigger] extensiones(i).contains(".pdf"@)) by {
        if i != 9 {
            extensiones_disjuntas(9, i, ".pdf"@);
        }
    }
    extension_sin_categoria(".pdf"@);
}

/// Whether `patron` is a case-insensitive alternation ("(?i)" then
/// alternatives separated by '|') that has `marcador` as one of its whole
/// alternatives, so that a name holding `marcador` in any case matches it.
pub open spec fn es_alternativa(patron: Seq<char>, marcador: Seq<char>) -> bool {
    &&& patron.take(4) == seq!['(', '?', 'i', ')']
    &&& exists|i: int|
        #![trigger patron.subrange(i, i + marcador.len())]
        {
            &&& 4 <= i
            &&& i + marcador.len() <= patron.len()
            &&& patron.subrange(i, i + marcador.len()) == marcador
            &&& (i == 4 || patron[i - 1] == '|')
            &&& (i + marcador.len() == patron.len() || patron[i + marcador.len()] == '|')
        }
}

proof fn regla_0()
    ensures
        nombres_pdf()[0] == "⚫ Transferencias"@,
        es_alternativa(patrones_pdf()[0], r"Transferencia_"@),
{
    reveal_strlit(r"(?i)Transferencia_");
    assert(patrones_pdf()[0].len() == 18);
    assert(patrones_pdf()[0].take(4) =~= seq!['(', '?', 'i', ')']);
    reveal_strlit(r"Transferencia_");
    assert(r"Transferencia_"@.len() == 14);
    assert(patrones_pdf()[0].subrange(4int, 4int + r"Transferencia_"@.len()) =~= r"Transferencia_"@);
}

proof fn regla_1()
    ensures
        nombres_pdf()[1] == "⚫ Depósitos"@,
        es_alternativa(patrones_pdf()[1], r"BoletaDeposito_"@),
{
    reveal_strlit(r"(?i)BoletaDeposito_");
    assert(patrones_pdf()[1].len() == 19);
    assert(patrones_pdf()[1].take(4) =~= seq!['(', '?', 'i', ')']);
    reveal_strlit(r"BoletaDeposito_");
    assert(r"BoletaDeposito_"@.len() == 15);
    assert(patrones_pdf()[1].subrange(4int, 4int + r"BoletaDeposito_"@.len()) =~= r"BoletaDeposito_"@);
}

proof fn regla_2()
    ensures
        nombres_pdf()[2] == "⚫ Comprobantes Varios"@,
        es_alternativa(patrones_pdf()[2], r"comprobante-operacion-"@),
{
    reveal_strlit(r"(?i)comprobante-operacion-");
    assert(patrones_pdf()[2].len() == 26);
    assert(patrones_pdf()[2].take(4) =~= seq!['(', '?', 'i', ')']);
    reveal_strlit(r"comprobante-operacion-");
    assert(r"comprobante-operacion-"@.len() == 22);
    assert(patrones_pdf()[2].subrange(4int, 4int + r"comprobante-operacion-"@.len()) =~= r"comprobante-operacion-"@);
}

proof fn regla_3()
    ensures
        nombres_pdf()[3] == "⚫ Planillas de Carga"@,
        es_alternativa(patrones_pdf()[3], r"planilladecarga"@),
{
    reveal_strlit(r"(?i)planilladecarga");
    assert(patrones_pdf()[3].len() == 19);
    assert(patrones_pdf()[3].take(4) =~= seq!['(', '?', 'i', ')']);
    reveal_strlit(r"planilladecarga");
    assert(r"planilladecarga"@.len() == 15);
    assert(patrones_pdf()[3].subrange(4int, 4int + r"planilladecarga"@.len()) =~= r"planilladecarga"@);
}

proof fn regla_4()
    ensures
        nombres_pdf()[4] == "⚫ Detalles Cargas y Descargas"@,
        es_alternativa(patrones_pdf()[4], r"detalle_de_cargas-descargas"@),
{
    reveal_strlit(r"(?i)detalle_de_cargas-descargas");
    assert(patrones_pdf()[4].len() == 31);
    assert(patrones_pdf()[4].take(4) =~= seq!['(', '?', 'i', ')']);
    reveal_strlit(r"detalle_de_cargas-descargas");
    assert(r"detalle_de_cargas-descargas"@.len() == 27);
    assert(patrones_pdf()[4].subrange(4int, 4int + r"detalle_de_cargas-descargas"@.len()) =~= r"detalle_de_cargas-descargas"@);
}

proof fn regla_5()
    ensures
        nombres_pdf()[5] == "⚫ Detalles de Liquidaciones"@,
        es_alternativa(patrones_pdf()[5], r"detalle_de_liquidaciones"@),
{
    reveal_strlit(r"(?i)detalle_de_liquidaciones");
    assert(patrones_pdf()[5].len() == 28);
    assert(patrones_pdf()[5].take(4) =~= seq!['(', '?', 'i', ')']);
    reveal_strlit(r"detalle_de_liquidaciones");
    assert(r"detalle_de_liquidaciones"@.len() == 24);
    assert(patrones_pdf()[5].subrange(4int, 4int + r"detalle_de_liquidaciones"@.len()) =~= r"detalle_de_liquidaciones"@);
}

proof fn regla_6()
    ensures
        nombres_pdf()[6] == "⚫ Recibos de Clientes"@,
        es_alternativa(patrones_pdf()[6], r"recibocliente"@),
{
    reveal_strlit(r"(?i)recibocliente");
    assert(patrones_pdf()[6].len() == 17);
    assert(patrones_pdf()[6].take(4) =~= seq!['(', '?', 'i', ')']);
    reveal_strlit(r"recibocliente");
    assert(r"recibocliente"@.len() == 13);
    assert(patrones_pdf()[6].subrange(4int, 4int + r"recibocliente"@.len()) =~= r"recibocliente"@);
}

proof fn regla_7()
    ensures
        nombres_pdf()[7] == "⚫ Caja y Bancos"@,
        es_alternativa(patrones_pdf()[7], r"PlanillaCaja"@),
        es_alternativa(patrones_pdf()[7], r"saldouncliente"@),
        es_alternativa(patrones_pdf()[7], r"Ultimos_Movimientos"@),
        es_alternativa(patrones_pdf()[7], r"Mayor administrativo"@),
{
    reveal_strlit(r"(?i)PlanillaCaja|saldouncliente|Ultimos_Movimientos|Mayor administrativo");
    assert(patrones_pdf()[7].len() == 72);
    assert(patrones_pdf()[7].take(4) =~= seq!['(', '?', 'i', ')']);
    reveal_strlit(r"PlanillaCaja");
    assert(r"PlanillaCaja"@.len() == 12);
    assert(patrones_pdf()[7].subrange(4int, 4int + r"PlanillaCaja"@.len()) =~= r"PlanillaCaja"@);
    reveal_strlit(r"saldouncliente");
    assert(r"saldouncliente"@.len() == 14);
    assert(patrones_pdf()[7].subrange(17int, 17int + r"saldouncliente"@.len()) =~= r"saldouncliente"@);
    reveal_strlit(r"Ultimos_Movimientos");
    assert(r"Ultimos_Movimientos"@.len() == 19);
    assert(patrones_pdf()[7].subrange(32int, 32int + r"Ultimos_Movimientos"@.len()) =~= r"Ultimos_Movimientos"@);
    reveal_strlit(r"Mayor administrativo");
    assert(r"Mayor administrativo"@.len() == 20);
    assert(patrones_pdf()[7].subrange(52int, 52int + r"Mayor administrativo"@.len()) =~= r"Mayor administrativo"@);
}

proof fn regla_8()
    ensures
        nombres_pdf()[8] == "⚫ Liquidaciones"@,
        es_alternativa(patrones_pdf()[8], r"liquidacion_"@),
{
    reveal_strlit(r"(?i)liquidacion_");
    assert(patrones_pdf()[8].len() == 16);
    assert(patrones_pdf()[8].take(4) =~= seq!['(', '?', 'i', ')']);
    reveal_strlit(r"liquidacion_");
    assert(r"liquidacion_"@.len() == 12);
    assert(patrones_pdf()[8].subrange(4int, 4int + r"liquidacion_"@.len()) =~= r"liquidacion_"@);
}

proof fn regla_9()
    ensures
        nombres_pdf()[9] == "⚫ Anticipos"@,
        es_alternativa(patrones_pdf()[9], r"anticipo_"@),
{
    reveal_strlit(r"(?i)anticipo_");
    assert(patrones_pdf()[9].len() == 13);
    assert(patrones_pdf()[9].take(4) =~= seq!['(', '?', 'i', ')']);
    reveal_strlit(r"anticipo_");
    assert(r"anticipo_"@.len() == 9);
    assert(patrones_pdf()[9].subrange(4int, 4int + r"anticipo_"@.len()) =~= r"anticipo_"@);
}

proof fn regla_10()
    ensures
        nombres_pdf()[10] == "⚫ Remitos y Consignaciones"@,
        es_alternativa(patrones_pdf()[10], r"REMITOS"@),
        es_alternativa(patrones_pdf()[10], r"CONSIGNACIONES"@),
        es_alternativa(patrones_pdf()[10], r"Remito"@),
        es_alternativa(patrones_pdf()[10], r"DVCSG"@),
        es_alternativa(patrones_pdf()[10], r"RMCSG"@),
        es_alternativa(patrones_pdf()[10], r"REMCC"@),
{
    reveal_strlit(r"(?i)REMITOS|CONSIGNACIONES|Remito|DVCSG|RMCSG|REMCC");
    assert(patrones_pdf()[10].len() == 51);
    assert(patrones_pdf()[10].take(4) =~= seq!['(', '?', 'i', ')']);
    reveal_strlit(r"REMITOS");
    assert(r"REMITOS"@.len() == 7);
    assert(patrones_pdf()[10].subrange(4int, 4int + r"REMITOS"@.len()) =~= r"REMITOS"@);
    reveal_strlit(r"CONSIGNACIONES");
    assert(r"CONSIGNACIONES"@.len() == 14);
    assert(patrones_pdf()[10].subrange(12int, 12int + r"CONSIGNACIONES"@.len()) =~= r"CONSIGNACIONES"@);
    reveal_strlit(r"Remito");
    assert(r"Remito"@.len() == 6);
    assert(patrones_pdf()[10].subrange(27int, 27int + r"Remito"@.len()) =~= r"Remito"@);
    reveal_strlit(r"DVCSG");
    assert(r"DVCSG"@.len() == 5);
    assert(patrones_pdf()[10].subrange(34int, 34int + r"DVCSG"@.len()) =~= r"DVCSG"@);
    reveal_strlit(r"RMCSG");
    assert(r"RMCSG"@.len() == 5);
    assert(patrones_pdf()[10].subrange(40int, 40int + r"RMCSG"@.len()) =~= r"RMCSG"@);
    reveal_strlit(r"REMCC");
    assert(r"REMCC"@.len() == 5);
    assert(patrones_pdf()[10].subrange(46int, 46int + r"REMCC"@.len()) =~= r"REMCC"@);
}

proof fn regla_11()
    ensures
        nombres_pdf()[11] == "⚫ Presupuestos y Minutas"@,
        es_alternativa(patrones_pdf()[11], r"PRESU"@),
{
    reveal_strlit(r"(?i)PRESU");
    assert(patrones_pdf()[11].len() == 9);
    assert(patrones_pdf()[11].take(4) =~= seq!['(', '?', 'i', ')']);
    reveal_strlit(r"PRESU");
    assert(r"PRESU"@.len() == 5);
    assert(patrones_pdf()[11].subrange(4int, 4int + r"PRESU"@.len()) =~= r"PRESU"@);
}

proof fn regla_12()
    ensures
        nombres_pdf()[12] == "⚫ Recursos Humanos"@,
        es_alternativa(patrones_pdf()[12], r"(?:^|[^A-Za-z])CV(?:[^A-Za-z]|$)"@),
        es_alternativa(patrones_pdf()[12], r"Curriculum"@),
        es_alternativa(patrones_pdf()[12], r"Resume"@),
        es_alternativa(patrones_pdf()[12], r"Descripcion de puesto"@),
{
    reveal_strlit(r"(?i)(?:^|[^A-Za-z])CV(?:[^A-Za-z]|$)|Curriculum|Resume|Descripcion de puesto");
    assert(patrones_pdf()[12].len() == 76);
    assert(patrones_pdf()[12].take(4) =~= seq!['(', '?', 'i', ')']);
    reveal_strlit(r"(?:^|[^A-Za-z])CV(?:[^A-Za-z]|$)");
    assert(r"(?:^|[^A-Za-z])CV(?:[^A-Za-z]|$)"@.len() == 32);
    assert(patrones_pdf()[12].subrange(4int, 4int + r"(?:^|[^A-Za-z])CV(?:[^A-Za-z]|$)"@.len()) =~= r"(?:^|[^A-Za-z])CV(?:[^A-Za-z]|$)"@);
    reveal_strlit(r"Curriculum");
    assert(r"Curriculum"@.len() == 10);
    assert(patrones_pdf()[12].subrange(37int, 37int + r"Curriculum"@.len()) =~= r"Curriculum"@);
    reveal_strlit(r"Resume");
    assert(r"Resume"@.len() == 6);
    assert(patrones_pdf()[12].subrange(48int, 48int + r"Resume"@.len()) =~= r"Resume"@);
    reveal_strlit(r"Descripcion de puesto");
    assert(r"Descripcion de puesto"@.len() == 21);
    assert(patrones_pdf()[12].subrange(55int, 55int + r"Descripcion de puesto"@.len()) =~= r"Descripcion de puesto"@);
}

proof fn regla_13()
    ensures
        nombres_pdf()[13] == "⚫ Facturas y Notas"@,
        es_alternativa(patrones_pdf()[13], r"FC__"@),
        es_alternativa(patrones_pdf()[13], r"NC__"@),
        es_alternativa(patrones_pdf()[13], r"Factura"@),
        es_alternativa(patrones_pdf()[13], r"FCVTA"@),
        es_alternativa(patrones_pdf()[13], r"PRVTA"@),
        es_alternativa(patrones_pdf()[13], r"FCCSG"@),
        es_alternativa(patrones_pdf()[13], r"DVVTA"@),
        es_alternativa(patrones_pdf()[13], r"AFIP"@),
        es_alternativa(patrones_pdf()[13], r"Recibo"@),
        es_alternativa(patrones_pdf()[13], r"FACTURA_PRESUPUESTO"@),
        es_alternativa(patrones_pdf()[13], r"Fact\s"@),
        es_alternativa(patrones_pdf()[13], r"Nota de credito"@),
{
    reveal_strlit(r"(?i)FC__|NC__|Factura|FCVTA|PRVTA|FCCSG|DVVTA|AFIP|Recibo|FACTURA_PRESUPUESTO|Fact\s|Nota de credito");
    assert(patrones_pdf()[13].len() == 100);
    assert(patrones_pdf()[13].take(4) =~= seq!['(', '?', 'i', ')']);
    reveal_strlit(r"FC__");
    assert(r"FC__"@.len() == 4);
    assert(patrones_pdf()[13].subrange(4int, 4int + r"FC__"@.len()) =~= r"FC__"@);
    reveal_strlit(r"NC__");
    assert(r"NC__"@.len() == 4);
    assert(patrones_pdf()[13].subrange(9int, 9int + r"NC__"@.len()) =~= r"NC__"@);
    reveal_strlit(r"Factura");
    assert(r"Factura"@.len() == 7);
    assert(patrones_pdf()[13].subrange(14int, 14int + r"Factura"@.len()) =~= r"Factura"@);
    reveal_strlit(r"FCVTA");
    assert(r"FCVTA"@.len() == 5);
    assert(patrones_pdf()[13].subrange(22int, 22int + r"FCVTA"@.len()) =~= r"FCVTA"@);
    reveal_strlit(r"PRVTA");
    assert(r"PRVTA"@.len() == 5);
    assert(patrones_pdf()[13].subrange(28int, 28int + r"PRVTA"@.len()) =~= r"PRVTA"@);
    reveal_strlit(r"FCCSG");
    assert(r"FCCSG"@.len() == 5);
    assert(patrones_pdf()[13].subrange(34int, 34int + r"FCCSG"@.len()) =~= r"FCCSG"@);
    reveal_strlit(r"DVVTA");
    assert(r"DVVTA"@.len() == 5);
    assert(patrones_pdf()[13].subrange(40int, 40int + r"DVVTA"@.len()) =~= r"DVVTA"@);
    reveal_strlit(r"AFIP");
    assert(r"AFIP"@.len() == 4);
    assert(patrones_pdf()[13].subrange(46int, 46int + r"AFIP"@.len()) =~= r"AFIP"@);
    reveal_strlit(r"Recibo");
    assert(r"Recibo"@.len() == 6);
    assert(patrones_pdf()[13].subrange(51int, 51int + r"Recibo"@.len()) =~= r"Recibo"@);
    reveal_strlit(r"FACTURA_PRESUPUESTO");
    assert(r"FACTURA_PRESUPUESTO"@.len() == 19);
    assert(patrones_pdf()[13].subrange(58int, 58int + r"FACTURA_PRESUPUESTO"@.len()) =~= r"FACTURA_PRESUPUESTO"@);
    reveal_strlit(r"Fact\s");
    assert(r"Fact\s"@.len() == 6);
    assert(patrones_pdf()[13].subrange(78int, 78int + r"Fact\s"@.len()) =~= r"Fact\s"@);
    reveal_strlit(r"Nota de credito");
    assert(r"Nota de credito"@.len() == 15);
    assert(patrones_pdf()[13].subrange(85int, 85int + r"Nota de credito"@.len()) =~= r"Nota de credito"@);
}

/// The PDF rules, in the order they are tried: each category's name, the
/// markers its case-insensitive pattern looks for in a file name (as whole
/// alternatives), and that a name matched first by a rule gets its category.
pub proof fn reglas_de_cada_categoria()
    ensures
        nombres_pdf()[0] == "⚫ Transferencias"@,
        es_alternativa(patrones_pdf()[0], r"Transferencia_"@),
        forall|c: Seq<bool>| c.len() == NUM_CATEGORIAS_PDF && c[0] && (forall|j: int| 0 <= j < 0 ==> !c[j]) ==> #[trigger] categoria_por_coincidencias(c) == "⚫ Transferencias"@,
        nombres_pdf()[1] == "⚫ Depósitos"@,
        es_alternativa(patrones_pdf()[1], r"BoletaDeposito_"@),
        forall|c: Seq<bool>| c.len() == NUM_CATEGORIAS_PDF && c[1] && (forall|j: int| 0 <= j < 1 ==> !c[j]) ==> #[trigger] categoria_por_coincidencias(c) == "⚫ Depósitos"@,
        nombres_pdf()[2] == "⚫ Comprobantes Varios"@,
        es_alternativa(patrones_pdf()[2], r"comprobante-operacion-"@),
        forall|c: Seq<bool>| c.len() == NUM_CATEGORIAS_PDF && c[2] && (forall|j: int| 0 <= j < 2 ==> !c[j]) ==> #[trigger] categoria_por_coincidencias(c) == "⚫ Comprobantes Varios"@,
        nombres_pdf()[3] == "⚫ Planillas de Carga"@,
        es_alternativa(patrones_pdf()[3], r"planilladecarga"@),
        forall|c: Seq<bool>| c.len() == NUM_CATEGORIAS_PDF && c[3] && (forall|j: int| 0 <= j < 3 ==> !c[j]) ==> #[trigger] categoria_por_coincidencias(c) == "⚫ Planillas de Carga"@,
        nombres_pdf()[4] == "⚫ Detalles Cargas y Descargas"@,
        es_alternativa(patrones_pdf()[4], r"detalle_de_cargas-descargas"@),
        forall|c: Seq<bool>| c.len() == NUM_CATEGORIAS_PDF && c[4] && (forall|j: int| 0 <= j < 4 ==> !c[j]) ==> #[trigger] categoria_por_coincidencias(c) == "⚫ Detalles Cargas y Descargas"@,
        nombres_pdf()[5] == "⚫ Detalles de Liquidaciones"@,
        es_alternativa(patrones_pdf()[5], r"detalle_de_liquidaciones"@),
        forall|c: Seq<bool>| c.len() == NUM_CATEGORIAS_PDF && c[5] && (forall|j: int| 0 <= j < 5 ==> !c[j]) ==> #[trigger] categoria_por_coincidencias(c) == "⚫ Detalles de Liquidaciones"@,
        nombres_pdf()[6] == "⚫ Recibos de Clientes"@,
        es_alternativa(patrones_pdf()[6], r"recibocliente"@),
        forall|c: Seq<bool>| c.len() == NUM_CATEGORIAS_PDF && c[6] && (forall|j: int| 0 <= j < 6 ==> !c[j]) ==> #[trigger] categoria_por_coincidencias(c) == "⚫ Recibos de Clientes"@,
        nombres_pdf()[7] == "⚫ Caja y Bancos"@,
        es_alternativa(patrones_pdf()[7], r"PlanillaCaja"@),
        es_alternativa(patrones_pdf()[7], r"saldouncliente"@),
        es_alternativa(patrones_pdf()[7], r"Ultimos_Movimientos"@),
        es_alternativa(patrones_pdf()[7], r"Mayor administrativo"@),
        forall|c: Seq<bool>| c.len() == NUM_CATEGORIAS_PDF && c[7] && (forall|j: int| 0 <= j < 7 ==> !c[j]) ==> #[trigger] categoria_por_coincidencias(c) == "⚫ Caja y Bancos"@,
        nombres_pdf()[8] == "⚫ Liquidaciones"@,
        es_alternativa(patrones_pdf()[8], r"liquidacion_"@),
        forall|c: Seq<bool>| c.len() == NUM_CATEGORIAS_PDF && c[8] && (forall|j: int| 0 <= j < 8 ==> !c[j]) ==> #[trigger] categoria_por_coincidencias(c) == "⚫ Liquidaciones"@,
        nombres_pdf()[9] == "⚫ Anticipos"@,
        es_alternativa(patrones_pdf()[9], r"anticipo_"@),
        forall|c: Seq<bool>| c.len() == NUM_CATEGORIAS_PDF && c[9] && (forall|j: int| 0 <= j < 9 ==> !c[j]) ==> #[trigger] categoria_por_coincidencias(c) == "⚫ Anticipos"@,
        nombres_pdf()[10] == "⚫ Remitos y Consignaciones"@,
        es_alternativa(patrones_pdf()[10], r"REMITOS"@),
        es_alternativa(patrones_pdf()[10], r"CONSIGNACIONES"@),
        es_alternativa(patrones_pdf()[10], r"Remito"@),
        es_alternativa(patrones_pdf()[10], r"DVCSG"@),
        es_alternativa(patrones_pdf()[10], r"RMCSG"@),
        es_alternativa(patrones_pdf()[10], r"REMCC"@),
        forall|c: Seq<bool>| c.len() == NUM_CATEGORIAS_PDF && c[10] && (forall|j: int| 0 <= j < 10 ==> !c[j]) ==> #[trigger] categoria_por_coincidencias(c) == "⚫ Remitos y Consignaciones"@,
        nombres_pdf()[11] == "⚫ Presupuestos y Minutas"@,
        es_alternativa(patrones_pdf()[11], r"PRESU"@),
        forall|c: Seq<bool>| c.len() == NUM_CATEGORIAS_PDF && c[11] && (forall|j: int| 0 <= j < 11 ==> !c[j]) ==> #[trigger] categoria_por_coincidencias(c) == "⚫ Presupuestos y Minutas"@,
        nombres_pdf()[12] == "⚫ Recursos Humanos"@,
        es_alternativa(patrones_pdf()[12], r"(?:^|[^A-Za-z])CV(?:[^A-Za-z]|$)"@),
        es_alternativa(patrones_pdf()[12], r"Curriculum"@),
        es_alternativa(patrones_pdf()[12], r"Resume"@),
        es_alternativa(patrones_pdf()[12], r"Descripcion de puesto"@),
        forall|c: Seq<bool>| c.len() == NUM_CATEGORIAS_PDF && c[12] && (forall|j: int| 0 <= j < 12 ==> !c[j]) ==> #[trigger] categoria_por_coincidencias(c) == "⚫ Recursos Humanos"@,
        nombres_pdf()[13] == "⚫ Facturas y Notas"@,
        es_alternativa(patrones_pdf()[13], r"FC__"@),
        es_alternativa(patrones_pdf()[13], r"NC__"@),
        es_alternativa(patrones_pdf()[13], r"Factura"@),
        es_alternativa(patrones_pdf()[13], r"FCVTA"@),
        es_alternativa(patrones_pdf()[13], r"PRVTA"@),
        es_alternativa(patrones_pdf()[13], r"FCCSG"@),
        es_alternativa(patrones_pdf()[13], r"DVVTA"@),
        es_alternativa(patrones_pdf()[13], r"AFIP"@),
        es_alternativa(patrones_pdf()[13], r"Recibo"@),
        es_alternativa(patrones_pdf()[13], r"FACTURA_PRESUPUESTO"@),
        es_alternativa(patrones_pdf()[13], r"Fact\s"@),
        es_alternativa(patrones_pdf()[13], r"Nota de credito"@),
        forall|c: Seq<bool>| c.len() == NUM_CATEGORIAS_PDF && c[13] && (forall|j: int| 0 <= j < 13 ==> !c[j]) ==> #[trigger] categoria_por_coincidencias(c) == "⚫ Facturas y Notas"@,
{
    regla_0();
    regla_1();
    regla_2();
    regla_3();
    regla_4();
    regla_5();
    regla_6();
    regla_7();
    regla_8();
    regla_9();
    regla_10();
    regla_11();
    regla_12();
    regla_13();
    assert forall|k: int, c: Seq<bool>|
        0 <= k < NUM_CATEGORIAS_PDF && c.len() == NUM_CATEGORIAS_PDF && c[k] && (forall|j: int| 0 <= j < k ==> !c[j])
        implies categoria_por_coincidencias(c) == nombres_pdf()[k] by {
        categoria_es_la_primera_regla(c, k);
    }
}

} // verus!
