//! The durable store: one SQLite table of task rows.
use crate::tarea::TodoItem;
use rusqlite::{Connection, Error};
use vstd::prelude::*;

verus! {

#[verifier::external_type_specification]
#[verifier::external_body]
pub struct ExConnection(Connection);

#[verifier::external_type_specification]
#[verifier::external_body]
pub struct ExError(Error);

/// A row as the table holds it, before it is checked against the task model.
pub struct FilaCruda {
    pub id: i64,
    pub descripcion: String,
    pub completada: i64,
    pub tiempo: i64,
}

/// A failure of the store: opening the file, running a statement or reading a row.
pub enum ErrorAlmacen {
    Sqlite(Error),
}

/// Relies on `rusqlite::Connection::open`: opens, or creates, the database at `ruta`.
#[verifier::external_body]
fn abrir_conexion(ruta: &str) -> (r: Result<Connection, Error>) {
    Connection::open(ruta)
}

/// Relies on `rusqlite::Connection::execute`: runs one statement whose
/// placeholders take the integers `parametros` in order.
#[verifier::external_body]
fn ejecutar(conn: &Connection, sql: &str, parametros: &[i64]) -> (r: Result<usize, Error>) {
    conn.execute(sql, rusqlite::params_from_iter(parametros.iter()))
}

/// Relies on `rusqlite::Connection::execute`: runs one statement whose first
/// placeholder takes `texto` and whose second takes `n`.
#[verifier::external_body]
fn ejecutar_con_texto(conn: &Connection, sql: &str, texto: &str, n: i64) -> (r: Result<
    usize,
    Error,
>) {
    conn.execute(sql, (texto, n))
}

/// Relies on `rusqlite::Connection::query_row`: the integer in the first
/// column of the first row that `sql` yields.
#[verifier::external_body]
fn consultar_entero(conn: &Connection, sql: &str) -> (r: Result<i64, Error>) {
    conn.query_row(sql, [], |fila| fila.get(0))
}

/// Relies on `rusqlite::Connection::prepare` and `Statement::query_map`: every
/// row that `sql` yields, its four columns read as id, description,
/// completion flag and seconds, or the error met while reading that row.
#[verifier::external_body]
fn consultar_filas(conn: &Connection, sql: &str) -> (r: Result<Vec<Result<FilaCruda, Error>>, Error>) {
    let mut sentencia = conn.prepare(sql)?;
    let filas = sentencia.query_map([], |fila| {
        Ok(FilaCruda { id: fila.get(0)?, descripcion: fila.get(1)?, completada: fila.get(2)?, tiempo: fila.get(3)? })
    })?;
    Ok(filas.collect())
}

const CREAR_TABLA: &'static str = "CREATE TABLE IF NOT EXISTS tareas (
                id INTEGER PRIMARY KEY AUTOINCREMENT,
                descripcion TEXT NOT NULL,
                completada INTEGER DEFAULT 0,
                tiempo_acumulado INTEGER DEFAULT 0
            )";

const CONTAR: &'static str = "SELECT COUNT(*) FROM tareas";

const SELECCIONAR: &'static str = "SELECT id, descripcion, completada, tiempo_acumulado FROM tareas ORDER BY id";

const INSERTAR: &'static str = "INSERT INTO tareas (descripcion, completada, tiempo_acumulado) VALUES (?1, ?2, ?2)";

const BORRAR: &'static str = "DELETE FROM tareas WHERE id = ?1";

const MARCAR: &'static str = "UPDATE tareas SET completada = ?1 WHERE id = ?2";

const CAMBIAR_TIEMPO: &'static str = "UPDATE tareas SET tiempo_acumulado = ?1 WHERE id = ?2";

const CAMBIAR_DESCRIPCION: &'static str = "UPDATE tareas SET descripcion = ?1 WHERE id = ?2";

/// A row fits the task model: id and flag are `i32` values and the seconds
/// are a non-negative `i32`.
pub open spec fn fila_valida(f: FilaCruda) -> bool {
    &&& i32::MIN <= f.id <= i32::MAX
    &&& i32::MIN <= f.completada <= i32::MAX
    &&& 0 <= f.tiempo <= i32::MAX
}

/// `t` is the stopped task that row `f` describes.
pub open spec fn tarea_de_fila(f: FilaCruda, t: TodoItem) -> bool {
    &&& t.id == f.id
    &&& t.text@ == f.descripcion@
    &&& t.checked == (f.completada != 0)
    &&& t.tiempo_acumulado == f.tiempo
    &&& t.temporizador is None
}

/// The rows of `s` that were read and fit the task model, in order.
pub open spec fn filas_legibles<E>(s: Seq<Result<FilaCruda, E>>) -> Seq<FilaCruda>
    decreases s.len(),
{
    if s.len() == 0 {
        Seq::empty()
    } else {
        let previas = filas_legibles(s.drop_last());
        if s.last() is Ok && fila_valida(s.last()->Ok_0) {
            previas.push(s.last()->Ok_0)
        } else {
            previas
        }
    }
}

/// `v` holds, in order, the tasks of the rows of `s` that were read and fit
/// the task model.
pub open spec fn decodificadas<E>(s: Seq<Result<FilaCruda, E>>, v: Seq<TodoItem>) -> bool {
    &&& v.len() == filas_legibles(s).len()
    &&& forall|i: int| 0 <= i < v.len() ==> tarea_de_fila(#[trigger] filas_legibles(s)[i], v[i])
}

/// The tasks of the rows that were read and fit the task model, in order; a
/// row that failed to read or does not fit is skipped.
pub fn decodificar_filas<E>(filas: &Vec<Result<FilaCruda, E>>) -> (r: Vec<TodoItem>)
    ensures
        decodificadas(filas@, r@),
        forall|i: int| 0 <= i < r@.len() ==> (#[trigger] r@[i]).bien_formada(),
{
    let mut r: Vec<TodoItem> = Vec::new();
    let mut i: usize = 0;
    while i < filas.len()
        invariant
            i <= filas@.len(),
            decodificadas(filas@.subrange(0, i as int), r@),
            forall|k: int| 0 <= k < r@.len() ==> (#[trigger] r@[k]).bien_formada(),
        decreases filas@.len() - i,
    {
        proof {
            assert(filas@.subrange(0, i as int + 1).drop_last() =~= filas@.subrange(0, i as int));
        }
        if let Ok(f) = &filas[i] {
            if i32::MIN as i64 <= f.id && f.id <= i32::MAX as i64 && i32::MIN as i64 <= f.completada
                && f.completada <= i32::MAX as i64 && 0 <= f.tiempo && f.tiempo <= i32::MAX as i64 {
                r.push(TodoItem::nueva(f.id as i32, f.descripcion.clone(), f.completada != 0, f.tiempo as i32));
            }
        }
        i = i + 1;
    }
    assert(filas@.subrange(0, filas@.len() as int) =~= filas@);
    r
}

/// The descriptions that a new store starts with, in order.
pub open spec fn ejemplos() -> Seq<Seq<char>> {
    seq![
        "Comprar leche y pan en el supermercado"@,
        "Llamar al dentista para cita"@,
        "Revisar correo electrónico importante"@,
        "Hacer ejercicio 30 minutos"@,
        "Leer capítulo del libro"@,
        "Preparar presentación para reunión"@,
        "Pagar facturas del mes"@,
        "Organizar escritorio de trabajo"@,
        "Estudiar Rust y egui"@,
        "Backup de archivos importantes"@,
    ]
}

/// The descriptions that a new store starts with, in order.
pub fn tareas_de_ejemplo() -> (r: Vec<&'static str>)
    ensures
        r@.map_values(|d: &str| d@) == ejemplos(),
{
    vec![
        "Comprar leche y pan en el supermercado",
        "Llamar al dentista para cita",
        "Revisar correo electrónico importante",
        "Hacer ejercicio 30 minutos",
        "Leer capítulo del libro",
        "Preparar presentación para reunión",
        "Pagar facturas del mes",
        "Organizar escritorio de trabajo",
        "Estudiar Rust y egui",
        "Backup de archivos importantes",
    ]
}

/// The outcome of a statement, with its failure mapped to the store's error.
fn hecho(r: Result<usize, Error>) -> (s: Result<(), ErrorAlmacen>)
    ensures
        s is Ok <==> r is Ok,
{
    match r {
        Ok(_) => Ok(()),
        Err(e) => Err(ErrorAlmacen::Sqlite(e)),
    }
}

/// What the store was asked to do, in the order it was asked: creating the
/// table, counting its rows (with the count it gave), and each write.
pub enum Operacion {
    CrearTabla,
    Contar(int),
    Insertar(Seq<char>),
    Borrar(i32),
    Marcar(i32, bool),
    Tiempo(i32, i32),
    Descripcion(i32, Seq<char>),
}

/// The descriptions that seeding inserts after the table counted `cuenta`
/// rows: the examples when it was empty, none otherwise.
pub open spec fn siembra(cuenta: int) -> Seq<Seq<char>> {
    if cuenta == 0 {
        ejemplos()
    } else {
        Seq::empty()
    }
}

/// One insertion for each description, in order.
pub open spec fn inserciones(ds: Seq<Seq<char>>) -> Seq<Operacion> {
    ds.map_values(|d: Seq<char>| Operacion::Insertar(d))
}

/// The operations that opening a store issues when its count gives `cuenta`.
pub open spec fn apertura(cuenta: int) -> Seq<Operacion> {
    seq![Operacion::CrearTabla, Operacion::Contar(cuenta)] + inserciones(siembra(cuenta))
}

/// The operations of a record, without their outcomes.
pub open spec fn pedidas(registro: Seq<(Operacion, bool)>) -> Seq<Operacion> {
    registro.map_values(|e: (Operacion, bool)| e.0)
}

/// Each operation of `plan`, succeeded.
pub open spec fn exitosas(plan: Seq<Operacion>) -> Seq<(Operacion, bool)> {
    plan.map_values(|o: Operacion| (o, true))
}

/// `nuevos` issued the operations of `plan` in order and stopped after the
/// first that failed; `ok` tells that all of them were issued and succeeded.
pub open spec fn hasta_el_fallo(nuevos: Seq<(Operacion, bool)>, plan: Seq<Operacion>, ok: bool) -> bool {
    &&& nuevos.len() <= plan.len()
    &&& pedidas(nuevos) == plan.subrange(0, nuevos.len() as int)
    &&& forall|i: int| 0 <= i < nuevos.len() - 1 ==> #[trigger] nuevos[i].1
    &&& ok <==> (nuevos.len() == plan.len() && forall|i: int| 0 <= i < nuevos.len() ==> #[trigger] nuevos[i].1)
}

proof fn lema_pedidas_push(r: Seq<(Operacion, bool)>, e: (Operacion, bool))
    ensures
        pedidas(r.push(e)) == pedidas(r).push(e.0),
{
    assert(pedidas(r.push(e)) =~= pedidas(r).push(e.0));
}

/// Issuing the first `k` operations of `plan` with success and the next one
/// with failure is stopping at the first failure, and not success.
proof fn lema_fallo_en(plan: Seq<Operacion>, k: int)
    requires
        0 <= k < plan.len(),
    ensures
        hasta_el_fallo(exitosas(plan.subrange(0, k)).push((plan[k], false)), plan, false),
{
    let nuevos = exitosas(plan.subrange(0, k)).push((plan[k], false));
    assert(pedidas(nuevos) =~= plan.subrange(0, k + 1));
    assert(!nuevos[k].1);
}

/// Issuing every operation of `plan` with success is success.
proof fn lema_todo_exito(plan: Seq<Operacion>)
    ensures
        hasta_el_fallo(exitosas(plan), plan, true),
{
    assert(pedidas(exitosas(plan)) =~= plan.subrange(0, plan.len() as int));
}

/// The descriptions to insert when the table counts `cuenta` rows: the
/// examples, in order, for an empty table, and none otherwise.
pub fn a_sembrar(cuenta: i64) -> (r: Vec<&'static str>)
    ensures
        r@.map_values(|d: &str| d@) == siembra(cuenta as int),
{
    if cuenta == 0 {
        tareas_de_ejemplo()
    } else {
        let r: Vec<&'static str> = Vec::new();
        assert(r@.map_values(|d: &str| d@) =~= Seq::<Seq<char>>::empty());
        r
    }
}

/// The parameters of the statement that deletes the row `id`.
pub fn parametros_borrar(id: i32) -> (r: Vec<i64>)
    ensures
        r@ == seq![id as i64],
{
    vec![id as i64]
}

/// The parameters of the statement that sets the completion flag of the row
/// `id`: the flag as 1 or 0, then the id.
pub fn parametros_marcar(id: i32, completada: bool) -> (r: Vec<i64>)
    ensures
        r@ == seq![if completada { 1i64 } else { 0i64 }, id as i64],
{
    vec![if completada { 1i64 } else { 0i64 }, id as i64]
}

/// The parameters of the statement that sets the seconds of the row `id`:
/// the seconds, then the id.
pub fn parametros_tiempo(id: i32, tiempo: i32) -> (r: Vec<i64>)
    ensures
        r@ == seq![tiempo as i64, id as i64],
{
    vec![tiempo as i64, id as i64]
}

/// A connection to the task table, with the record of what it was asked.
pub struct Db {
    conn: Connection,
    registro: Ghost<Seq<(Operacion, bool)>>,
}

impl Db {
    /// What this store was asked to do since it was opened, in order, each
    /// with whether it succeeded.
    pub closed spec fn registro(&self) -> Seq<(Operacion, bool)> {
        self.registro@
    }

    /// What this store was asked to do since it was opened, in order.
    pub open spec fn operaciones(&self) -> Seq<Operacion> {
        pedidas(self.registro())
    }

    /// Opens or creates the database at `path`, creates the table when it is
    /// missing and fills it with the example tasks when it counts no row. It
    /// is `Ok` only when every one of these steps was issued and succeeded.
    pub fn new(path: &str) -> (r: Result<Db, ErrorAlmacen>)
        ensures
            r matches Ok(db) ==> exists|cuenta: int| db.registro() == exitosas(#[trigger] apertura(cuenta)),
    {
        match abrir_conexion(path) {
            Ok(conn) => {
                let mut db = Db { conn, registro: Ghost(Seq::empty()) };
                match db.init() {
                    Ok(()) => {
                        proof {
                            let c = choose|c: int| hasta_el_fallo(
                                db.registro@.subrange(0, db.registro@.len() as int),
                                #[trigger] apertura(c),
                                true,
                            );
                            let reg = db.registro@;
                            assert(reg.subrange(0, reg.len() as int) =~= reg);
                            assert forall|i: int| 0 <= i < reg.len() implies reg[i] == exitosas(apertura(c))[i] by {
                                assert(pedidas(reg)[i] == apertura(c)[i]);
                            }
                            assert(reg =~= exitosas(apertura(c)));
                        }
                        Ok(db)
                    },
                    Err(e) => Err(e),
                }
            },
            Err(e) => Err(ErrorAlmacen::Sqlite(e)),
        }
    }

    /// Creates the table when it is missing, counts its rows and inserts
    /// exactly what `a_sembrar` gives for that count, in order, stopping at
    /// the first statement that fails. `Ok` exactly when all were issued and
    /// succeeded.
    fn init(&mut self) -> (r: Result<(), ErrorAlmacen>)
        ensures
            final(self).registro().len() >= old(self).registro().len(),
            final(self).registro().subrange(0, old(self).registro().len() as int) == old(self).registro(),
            exists|cuenta: int|
                hasta_el_fallo(
                    final(self).registro().subrange(
                        old(self).registro().len() as int,
                        final(self).registro().len() as int,
                    ),
                    #[trigger] apertura(cuenta),
                    r is Ok,
                ),
    {
        let ghost inicio = self.registro@;
        let creada = hecho(ejecutar(&self.conn, CREAR_TABLA, &[]));
        proof {
            self.registro@ = self.registro@.push((Operacion::CrearTabla, creada is Ok));
        }
        if let Err(e) = creada {
            proof {
                lema_fallo_en(apertura(0), 0);
                assert(self.registro@.subrange(inicio.len() as int, self.registro@.len() as int)
                    =~= exitosas(apertura(0).subrange(0, 0)).push((apertura(0)[0], false)));
                assert(self.registro@.subrange(0, inicio.len() as int) =~= inicio);
            }
            return Err(e);
        }
        let contada = consultar_entero(&self.conn, CONTAR);
        let cuenta: i64 = match contada {
            Ok(n) => n,
            Err(_) => 0,
        };
        proof {
            self.registro@ = self.registro@.push((Operacion::Contar(cuenta as int), contada is Ok));
        }
        if let Err(e) = contada {
            proof {
                lema_fallo_en(apertura(0), 1);
                assert(self.registro@.subrange(inicio.len() as int, self.registro@.len() as int)
                    =~= exitosas(apertura(0).subrange(0, 1)).push((apertura(0)[1], false)));
                assert(self.registro@.subrange(0, inicio.len() as int) =~= inicio);
            }
            return Err(ErrorAlmacen::Sqlite(e));
        }
        let lista = a_sembrar(cuenta);
        let ghost plan = apertura(cuenta as int);
        proof {
            assert(plan.len() == 2 + lista@.len());
            assert(self.registro@ =~= inicio + exitosas(plan.subrange(0, 2)));
        }
        let mut i: usize = 0;
        while i < lista.len()
            invariant
                i <= lista@.len(),
                inicio == old(self).registro@,
                plan == apertura(cuenta as int),
                plan.len() == 2 + lista@.len(),
                lista@.map_values(|d: &str| d@) == siembra(cuenta as int),
                self.registro@ == inicio + exitosas(plan.subrange(0, 2 + i as int)),
            decreases lista@.len() - i,
        {
            let hecha = self.agregar_tarea(lista[i]);
            proof {
                assert(plan[2 + i as int] == Operacion::Insertar(lista@[i as int]@)) by {
                    assert(siembra(cuenta as int)[i as int] == lista@[i as int]@);
                }
            }
            if let Err(e) = hecha {
                proof {
                    lema_fallo_en(plan, 2 + i as int);
                    assert(self.registro@.subrange(inicio.len() as int, self.registro@.len() as int)
                        =~= exitosas(plan.subrange(0, 2 + i as int)).push((plan[2 + i as int], false)));
                    assert(self.registro@.subrange(0, inicio.len() as int) =~= inicio);
                }
                return Err(e);
            }
            proof {
                assert(self.registro@ =~= inicio + exitosas(plan.subrange(0, 2 + i as int + 1)));
            }
            i = i + 1;
        }
        proof {
            lema_todo_exito(plan);
            assert(plan.subrange(0, plan.len() as int) =~= plan);
            assert(self.registro@.subrange(inicio.len() as int, self.registro@.len() as int) =~= exitosas(plan));
            assert(self.registro@.subrange(0, inicio.len() as int) =~= inicio);
        }
        Ok(())
    }

    /// Every task of the table in id order, stopped; rows that cannot be read
    /// or do not fit the task model are skipped.
    pub fn cargar_tareas(&self) -> (r: Result<Vec<TodoItem>, ErrorAlmacen>)
        ensures
            r matches Ok(v) ==> exists|filas: Seq<Result<FilaCruda, Error>>| #[trigger] decodificadas(filas, v@),
            r matches Ok(v) ==> forall|i: int| 0 <= i < v@.len() ==> (#[trigger] v@[i]).bien_formada(),
    {
        match consultar_filas(&self.conn, SELECCIONAR) {
            Ok(filas) => {
                let v = decodificar_filas(&filas);
                assert(decodificadas(filas@, v@));
                let r: Result<Vec<TodoItem>, ErrorAlmacen> = Ok(v);
                assert(r matches Ok(w) && decodificadas(filas@, w@));
                r
            },
            Err(e) => Err(ErrorAlmacen::Sqlite(e)),
        }
    }

    /// Appends a row with this description, not completed and with no time.
    pub fn agregar_tarea(&mut self, descripcion: &str) -> (r: Result<(), ErrorAlmacen>)
        ensures
            final(self).registro() == old(self).registro().push((Operacion::Insertar(descripcion@), r is Ok)),
            final(self).operaciones() == old(self).operaciones().push(Operacion::Insertar(descripcion@)),
    {
        let r = hecho(ejecutar_con_texto(&self.conn, INSERTAR, descripcion, 0));
        proof {
            lema_pedidas_push(self.registro@, (Operacion::Insertar(descripcion@), r is Ok));
            self.registro@ = self.registro@.push((Operacion::Insertar(descripcion@), r is Ok));
        }
        r
    }

    /// Removes the row with this id, if there is one.
    pub fn eliminar_tarea(&mut self, id: i32) -> (r: Result<(), ErrorAlmacen>)
        ensures
            final(self).registro() == old(self).registro().push((Operacion::Borrar(id), r is Ok)),
            final(self).operaciones() == old(self).operaciones().push(Operacion::Borrar(id)),
    {
        let p = parametros_borrar(id);
        let r = hecho(ejecutar(&self.conn, BORRAR, p.as_slice()));
        proof {
            lema_pedidas_push(self.registro@, (Operacion::Borrar(id), r is Ok));
            self.registro@ = self.registro@.push((Operacion::Borrar(id), r is Ok));
        }
        r
    }

    /// Sets the completion flag of the row with this id, if there is one.
    pub fn actualizar_tarea(&mut self, id: i32, completada: bool) -> (r: Result<(), ErrorAlmacen>)
        ensures
            final(self).registro() == old(self).registro().push((Operacion::Marcar(id, completada), r is Ok)),
            final(self).operaciones() == old(self).operaciones().push(Operacion::Marcar(id, completada)),
    {
        let p = parametros_marcar(id, completada);
        let r = hecho(ejecutar(&self.conn, MARCAR, p.as_slice()));
        proof {
            lema_pedidas_push(self.registro@, (Operacion::Marcar(id, completada), r is Ok));
            self.registro@ = self.registro@.push((Operacion::Marcar(id, completada), r is Ok));
        }
        r
    }

    /// Overwrites the seconds of the row with this id, if there is one.
    pub fn actualizar_tiempo(&mut self, id: i32, tiempo: i32) -> (r: Result<(), ErrorAlmacen>)
        ensures
            final(self).registro() == old(self).registro().push((Operacion::Tiempo(id, tiempo), r is Ok)),
            final(self).operaciones() == old(self).operaciones().push(Operacion::Tiempo(id, tiempo)),
    {
        let p = parametros_tiempo(id, tiempo);
        let r = hecho(ejecutar(&self.conn, CAMBIAR_TIEMPO, p.as_slice()));
        proof {
            lema_pedidas_push(self.registro@, (Operacion::Tiempo(id, tiempo), r is Ok));
            self.registro@ = self.registro@.push((Operacion::Tiempo(id, tiempo), r is Ok));
        }
        r
    }

    /// Overwrites the description of the row with this id, if there is one.
    pub fn actualizar_descripcion(&mut self, id: i32, descripcion: &str) -> (r: Result<(), ErrorAlmacen>)
        ensures
            final(self).registro() == old(self).registro().push((Operacion::Descripcion(id, descripcion@), r is Ok)),
            final(self).operaciones() == old(self).operaciones().push(Operacion::Descripcion(id, descripcion@)),
    {
        let r = hecho(ejecutar_con_texto(&self.conn, CAMBIAR_DESCRIPCION, descripcion, id as i64));
        proof {
            lema_pedidas_push(self.registro@, (Operacion::Descripcion(id, descripcion@), r is Ok));
            self.registro@ = self.registro@.push((Operacion::Descripcion(id, descripcion@), r is Ok));
        }
        r
    }
}

} // verus!
