//! The session: the ordered task list that the view shows, the store behind
//! it, and the state of the drag and edit gestures.
use crate::almacen::{apertura, decodificadas, exitosas, pedidas, Db, ErrorAlmacen, FilaCruda, Operacion};
use crate::reorden::{mover, movido};
use crate::tarea::{Timer, TodoItem};
use rusqlite::Error;
use vstd::prelude::*;

verus! {

/// The characters with the Unicode `White_Space` property.
pub open spec fn espacio_unicode(c: char) -> bool {
    let n = c as u32;
    ||| 0x9 <= n <= 0xd
    ||| n == 0x20
    ||| n == 0x85
    ||| n == 0xa0
    ||| n == 0x1680
    ||| 0x2000 <= n <= 0x200a
    ||| n == 0x2028
    ||| n == 0x2029
    ||| n == 0x202f
    ||| n == 0x205f
    ||| n == 0x3000
}

/// Whether `c` is white space.
pub fn es_espacio(c: char) -> (r: bool)
    ensures
        r == espacio_unicode(c),
{
    let n = c as u32;
    (0x9 <= n && n <= 0xd) || n == 0x20 || n == 0x85 || n == 0xa0 || n == 0x1680 || (0x2000 <= n
        && n <= 0x200a) || n == 0x2028 || n == 0x2029 || n == 0x202f || n == 0x205f || n == 0x3000
}

/// The text is empty once white space is trimmed from both ends.
pub open spec fn blanco(s: Seq<char>) -> bool {
    forall|i: int| 0 <= i < s.len() ==> espacio_unicode(#[trigger] s[i])
}

/// Whether `s` holds nothing but white space.
pub fn en_blanco(s: &str) -> (r: bool)
    ensures
        r == blanco(s@),
{
    let n = s.unicode_len();
    let mut i: usize = 0;
    while i < n
        invariant
            n == s@.len(),
            i <= n,
            forall|k: int| 0 <= k < i ==> espacio_unicode(#[trigger] s@[k]),
        decreases n - i,
    {
        if !es_espacio(s.get_char(i)) {
            return false;
        }
        i = i + 1;
    }
    true
}

/// The loaded tasks, or none when the load failed.
pub fn tareas_o_ninguna(cargadas: Result<Vec<TodoItem>, ErrorAlmacen>) -> (r: Vec<TodoItem>)
    ensures
        cargadas matches Ok(v) ==> r@ == v@,
        cargadas is Err ==> r@.len() == 0,
{
    match cargadas {
        Ok(v) => v,
        Err(_) => Vec::new(),
    }
}

/// `t` with its completion flag set to `marcada`.
pub open spec fn con_marca(t: TodoItem, marcada: bool) -> TodoItem {
    TodoItem { checked: marcada, ..t }
}

/// What the view shows of the whole list: how many tasks, how many are
/// completed or pending, and their total time in seconds.
pub struct Resumen {
    pub total: usize,
    pub completadas: usize,
    pub pendientes: usize,
    pub segundos: u64,
}

/// The number of completed tasks of `s`.
pub open spec fn cuenta_completadas(s: Seq<TodoItem>) -> nat
    decreases s.len(),
{
    if s.len() == 0 {
        0
    } else {
        cuenta_completadas(s.drop_last()) + if s.last().checked {
            1nat
        } else {
            0nat
        }
    }
}

/// The sum of `s`.
pub open spec fn suma(s: Seq<i32>) -> int
    decreases s.len(),
{
    if s.len() == 0 {
        0
    } else {
        suma(s.drop_last()) + s.last()
    }
}

/// `x` capped at the largest `u64`.
pub open spec fn tope_u64(x: int) -> int {
    if x > u64::MAX {
        u64::MAX as int
    } else {
        x
    }
}

proof fn lema_cuenta_acotada(s: Seq<TodoItem>)
    ensures
        cuenta_completadas(s) <= s.len(),
    decreases s.len(),
{
    if s.len() > 0 {
        lema_cuenta_acotada(s.drop_last());
    }
}

/// How many tasks of `tareas` are completed.
pub fn contar_completadas(tareas: &Vec<TodoItem>) -> (r: usize)
    ensures
        r == cuenta_completadas(tareas@),
{
    let mut r: usize = 0;
    let mut i: usize = 0;
    while i < tareas.len()
        invariant
            i <= tareas@.len(),
            r == cuenta_completadas(tareas@.subrange(0, i as int)),
        decreases tareas@.len() - i,
    {
        proof {
            assert(tareas@.subrange(0, i as int + 1).drop_last() =~= tareas@.subrange(0, i as int));
            lema_cuenta_acotada(tareas@.subrange(0, i as int + 1));
        }
        if tareas[i].checked {
            r = r + 1;
        }
        i = i + 1;
    }
    assert(tareas@.subrange(0, tareas@.len() as int) =~= tareas@);
    r
}

/// The sum of the non-negative `segundos`, capped at the largest `u64`.
pub fn sumar_tiempos(segundos: &Vec<i32>) -> (r: u64)
    requires
        forall|i: int| 0 <= i < segundos@.len() ==> #[trigger] segundos@[i] >= 0,
    ensures
        r == tope_u64(suma(segundos@)),
{
    let mut r: u64 = 0;
    let mut i: usize = 0;
    while i < segundos.len()
        invariant
            i <= segundos@.len(),
            forall|k: int| 0 <= k < segundos@.len() ==> #[trigger] segundos@[k] >= 0,
            r == tope_u64(suma(segundos@.subrange(0, i as int))),
            suma(segundos@.subrange(0, i as int)) >= 0,
        decreases segundos@.len() - i,
    {
        proof {
            assert(segundos@.subrange(0, i as int + 1).drop_last() =~= segundos@.subrange(0, i as int));
        }
        let x = segundos[i] as u64;
        if r > u64::MAX - x {
            r = u64::MAX;
        } else {
            r = r + x;
        }
        i = i + 1;
    }
    assert(segundos@.subrange(0, segundos@.len() as int) =~= segundos@);
    r
}

/// Hours, minutes and seconds of a time given in seconds.
pub fn desglose(segundos: u64) -> (r: (u64, u64, u64))
    ensures
        r.0 == segundos / 3600,
        r.1 == (segundos % 3600) / 60,
        r.2 == segundos % 60,
        r.0 * 3600 + r.1 * 60 + r.2 == segundos,
{
    let r = (segundos / 3600, (segundos % 3600) / 60, segundos % 60);
    assert(r.0 * 3600 + r.1 * 60 + r.2 == segundos) by (nonlinear_arith)
        requires
            r.0 == segundos / 3600,
            r.1 == (segundos % 3600) / 60,
            r.2 == segundos % 60,
    ;
    r
}

/// `t` with its timer replaced by `tm`.
pub open spec fn con_temporizador(t: TodoItem, tm: Option<Timer>) -> TodoItem {
    TodoItem { temporizador: tm, ..t }
}

/// The running timer of the first task of `antes` with this id, if that
/// task is being timed.
pub open spec fn temporizador_de(antes: Seq<TodoItem>, id: i32) -> Option<Timer>
    decreases antes.len(),
{
    if antes.len() == 0 {
        None
    } else if antes[0].id == id && antes[0].corriendo() {
        antes[0].temporizador
    } else {
        temporizador_de(antes.drop_first(), id)
    }
}

proof fn lema_temporizador_de_activo(antes: Seq<TodoItem>, id: i32)
    ensures
        temporizador_de(antes, id) matches Some(t) ==> t.activo,
    decreases antes.len(),
{
    if antes.len() > 0 {
        lema_temporizador_de_activo(antes.drop_first(), id);
    }
}

/// The running timer of the first task of `antes` with this id, if that
/// task is being timed.
fn temporizador_previo(antes: &Vec<TodoItem>, id: i32) -> (r: Option<Timer>)
    ensures
        r == temporizador_de(antes@, id),
{
    let mut k: usize = 0;
    assert(antes@.subrange(0, antes@.len() as int) =~= antes@);
    while k < antes.len()
        invariant
            k <= antes@.len(),
            temporizador_de(antes@, id) == temporizador_de(antes@.subrange(k as int, antes@.len() as int), id),
        decreases antes@.len() - k,
    {
        assert(antes@.subrange(k as int, antes@.len() as int).drop_first() =~= antes@.subrange(
            k as int + 1,
            antes@.len() as int,
        ));
        if antes[k].id == id {
            if let Some(t) = &antes[k].temporizador {
                if t.activo {
                    return Some(Timer { inicio: t.inicio, activo: true });
                }
            }
        }
        k = k + 1;
    }
    None
}

/// The loaded tasks `v`, each with the running timer that the task with its
/// id had in `antes`, if any, and no timer otherwise.
pub open spec fn con_temporizadores(antes: Seq<TodoItem>, v: Seq<TodoItem>) -> Seq<TodoItem> {
    v.map_values(|t: TodoItem| con_temporizador(t, temporizador_de(antes, t.id)))
}

/// The loaded tasks, in their order, each keeping the running timer that the
/// task with the same id had before the load.
pub fn conservar_temporizadores(antes: &Vec<TodoItem>, cargadas: Vec<TodoItem>) -> (r: Vec<TodoItem>)
    requires
        forall|i: int| 0 <= i < cargadas@.len() ==> (#[trigger] cargadas@[i]).bien_formada(),
    ensures
        r@ == con_temporizadores(antes@, cargadas@),
        forall|i: int| 0 <= i < r@.len() ==> (#[trigger] r@[i]).bien_formada(),
{
    let ghost c = cargadas@;
    let mut r = cargadas;
    let mut i: usize = 0;
    while i < r.len()
        invariant
            r@.len() == c.len(),
            i <= c.len(),
            forall|k: int| 0 <= k < i ==> #[trigger] r@[k] == con_temporizador(c[k], temporizador_de(antes@, c[k].id)),
            forall|k: int| i <= k < c.len() ==> #[trigger] r@[k] == c[k],
            forall|k: int| 0 <= k < c.len() ==> (#[trigger] c[k]).bien_formada(),
            forall|k: int| 0 <= k < r@.len() ==> (#[trigger] r@[k]).bien_formada(),
        decreases c.len() - i,
    {
        let id = r[i].id;
        let tm = temporizador_previo(antes, id);
        proof {
            lema_temporizador_de_activo(antes@, id);
        }
        r[i].temporizador = tm;
        i = i + 1;
    }
    assert(r@ =~= con_temporizadores(antes@, c));
    r
}

/// The tasks are, in order, those decoded from some rows of the store (rows
/// that could not be read or do not fit skipped), or none when the load
/// failed. Every such task is stopped.
pub open spec fn cargada(v: Seq<TodoItem>) -> bool {
    ||| v.len() == 0
    ||| exists|filas: Seq<Result<FilaCruda, Error>>| #[trigger] decodificadas(filas, v)
}

/// The ordered task list, the store behind it and the gesture in progress.
pub struct Sesion {
    db: Db,
    todos: Vec<TodoItem>,
    drag_index: Option<usize>,
    editing_index: Option<usize>,
    edit_text: String,
}

impl Sesion {
    /// The tasks, in display order.
    pub closed spec fn tareas(&self) -> Seq<TodoItem> {
        self.todos@
    }

    /// The position of the task being dragged, if a drag is in progress.
    pub closed spec fn arrastre(&self) -> Option<usize> {
        self.drag_index
    }

    /// The position of the task being edited, if an edit is in progress.
    pub closed spec fn edicion(&self) -> Option<usize> {
        self.editing_index
    }

    /// The draft text of the edit in progress.
    pub closed spec fn borrador(&self) -> Seq<char> {
        self.edit_text@
    }

    /// Every task is well formed and the gesture positions name tasks.
    pub closed spec fn bien_formada(&self) -> bool {
        &&& forall|i: int| 0 <= i < self.todos@.len() ==> (#[trigger] self.todos@[i]).bien_formada()
        &&& (self.drag_index matches Some(i) ==> i < self.todos@.len())
        &&& (self.editing_index matches Some(i) ==> i < self.todos@.len())
    }

    /// No gesture is in progress.
    pub open spec fn en_reposo(&self) -> bool {
        &&& self.arrastre() is None
        &&& self.edicion() is None
        &&& self.borrador().len() == 0
    }

    /// What the store behind the session was asked to do since it was
    /// opened, each with whether it succeeded.
    pub closed spec fn registro(&self) -> Seq<(Operacion, bool)> {
        self.db.registro()
    }

    /// What the store behind the session was asked to do since it was
    /// opened, without the outcomes.
    pub open spec fn operaciones(&self) -> Seq<Operacion> {
        pedidas(self.registro())
    }

    /// A session over `db` showing what it loads, with no gesture in progress.
    pub fn desde_db(db: Db) -> (r: Sesion)
        ensures
            r.bien_formada(),
            r.en_reposo(),
            cargada(r.tareas()),
            r.registro() == db.registro(),
    {
        let cargadas = db.cargar_tareas();
        let todos = tareas_o_ninguna(cargadas);
        Sesion { db, todos, drag_index: None, editing_index: None, edit_text: String::new() }
    }

    /// Opens the store at `ruta` and loads it. Only a failure to open the
    /// store is an error.
    pub fn abrir(ruta: &str) -> (r: Result<Sesion, ErrorAlmacen>)
        ensures
            r matches Ok(s) ==> s.bien_formada() && s.en_reposo() && cargada(s.tareas()),
            r matches Ok(s) ==> exists|cuenta: int| s.registro() == exitosas(#[trigger] apertura(cuenta)),
    {
        match Db::new(ruta) {
            Ok(db) => Ok(Sesion::desde_db(db)),
            Err(e) => Err(e),
        }
    }

    /// The tasks, in display order.
    pub fn todos(&self) -> (r: &Vec<TodoItem>)
        ensures
            r@ == self.tareas(),
    {
        &self.todos
    }

    /// The task at `indice`.
    pub fn todo_at(&self, indice: usize) -> (r: &TodoItem)
        requires
            indice < self.tareas().len(),
        ensures
            *r == self.tareas()[indice as int],
    {
        &self.todos[indice]
    }

    /// The first position that holds the task with this id, if any.
    pub fn posicion_de(&self, id: i32) -> (r: Option<usize>)
        ensures
            r matches Some(i) ==> i < self.tareas().len() && self.tareas()[i as int].id == id
                && forall|k: int| 0 <= k < i ==> #[trigger] self.tareas()[k].id != id,
            r is None ==> forall|k: int| 0 <= k < self.tareas().len() ==> #[trigger] self.tareas()[k].id != id,
    {
        let mut i: usize = 0;
        while i < self.todos.len()
            invariant
                i <= self.todos@.len(),
                forall|k: int| 0 <= k < i ==> #[trigger] self.todos@[k].id != id,
            decreases self.todos@.len() - i,
        {
            if self.todos[i].id == id {
                return Some(i);
            }
            i = i + 1;
        }
        None
    }

    /// The position of the task being dragged, if a drag is in progress.
    pub fn drag_index(&self) -> (r: Option<usize>)
        ensures
            r == self.arrastre(),
    {
        self.drag_index
    }

    /// The position of the task being edited, if an edit is in progress.
    pub fn editing_index(&self) -> (r: Option<usize>)
        ensures
            r == self.edicion(),
    {
        self.editing_index
    }

    /// The draft text of the edit in progress.
    pub fn edit_text(&self) -> (r: &String)
        ensures
            r@ == self.borrador(),
    {
        &self.edit_text
    }

    /// Replaces the draft text of the edit in progress.
    pub fn fijar_texto_edicion(&mut self, texto: String)
        ensures
            final(self).borrador() == texto@,
            final(self).tareas() == old(self).tareas(),
            final(self).arrastre() == old(self).arrastre(),
            final(self).edicion() == old(self).edicion(),
            final(self).registro() == old(self).registro(),
            old(self).bien_formada() ==> final(self).bien_formada(),
    {
        self.edit_text = texto;
    }

    /// Reloads the tasks from the store in its order; a failed load leaves
    /// the list empty. A loaded task whose id had a running timer keeps that
    /// timer; any reordering is lost, and the gesture in progress ends.
    pub fn reload_tasks(&mut self)
        ensures
            final(self).bien_formada(),
            final(self).en_reposo(),
            exists|v: Seq<TodoItem>|
                cargada(v) && final(self).tareas() == #[trigger] con_temporizadores(old(self).tareas(), v),
            final(self).registro() == old(self).registro(),
    {
        let leidas = self.db.cargar_tareas();
        let ghost g = leidas;
        let cargadas = tareas_o_ninguna(leidas);
        proof {
            if g is Ok {
                assert(cargadas@ == g->Ok_0@);
                assert(cargada(g->Ok_0@));
            }
        }
        let ghost v = cargadas@;
        self.todos = conservar_temporizadores(&self.todos, cargadas);
        self.drag_index = None;
        self.editing_index = None;
        self.edit_text = String::new();
        assert(cargada(v) && self.tareas() == con_temporizadores(old(self).tareas(), v));
    }

    /// Adds a task with this description unless it is blank. When the store
    /// takes it, the list is reloaded and the result is `true`; when the
    /// store fails, no task or gesture changes and the result is `false`.
    pub fn agregar(&mut self, descripcion: &str) -> (r: bool)
        requires
            old(self).bien_formada(),
        ensures
            final(self).bien_formada(),
            blanco(descripcion@) ==> !r && *final(self) == *old(self),
            !blanco(descripcion@) ==> final(self).registro() == old(self).registro().push(
                (Operacion::Insertar(descripcion@), r),
            ),
            r ==> final(self).en_reposo() && exists|v: Seq<TodoItem>|
                cargada(v) && final(self).tareas() == #[trigger] con_temporizadores(old(self).tareas(), v),
            !r ==> final(self).tareas() == old(self).tareas() && final(self).arrastre() == old(self).arrastre() && final(self).edicion() == old(self).edicion() && final(self).borrador()
                == old(self).borrador(),
    {
        if en_blanco(descripcion) {
            return false;
        }
        match self.db.agregar_tarea(descripcion) {
            Ok(()) => {
                assert(self.tareas() == old(self).tareas());
                self.reload_tasks();
                true
            },
            Err(_) => false,
        }
    }

    /// The id that deleting the task at `indice` asks the store to delete.
    pub fn id_a_borrar(&self, indice: usize) -> (r: Option<i32>)
        ensures
            r == if indice < self.tareas().len() {
                Some(self.tareas()[indice as int].id)
            } else {
                None
            },
    {
        if indice < self.todos.len() {
            Some(self.todos[indice].id)
        } else {
            None
        }
    }

    /// Removes the task at `indice` when the store deleted it, ending the
    /// gesture in progress; otherwise changes nothing.
    fn quitar_si_borrado(&mut self, indice: usize, borrado: bool)
        requires
            old(self).bien_formada(),
            indice < old(self).tareas().len(),
        ensures
            final(self).bien_formada(),
            final(self).registro() == old(self).registro(),
            borrado ==> final(self).tareas() == old(self).tareas().remove(indice as int)
                && final(self).en_reposo(),
            !borrado ==> *final(self) == *old(self),
    {
        if borrado {
            self.todos.remove(indice);
            self.drag_index = None;
            self.editing_index = None;
            self.edit_text = String::new();
        }
    }

    /// Asks the store to delete the id of the task at `indice` and, only if
    /// that succeeds, removes the task from the list and ends the gesture in
    /// progress. Returns whether the store deleted it.
    pub fn delete_task(&mut self, indice: usize) -> (r: bool)
        requires
            old(self).bien_formada(),
        ensures
            final(self).bien_formada(),
            indice >= old(self).tareas().len() ==> !r && *final(self) == *old(self),
            indice < old(self).tareas().len() ==> final(self).registro() == old(self).registro().push(
                (Operacion::Borrar(old(self).tareas()[indice as int].id), r),
            ),
            r ==> final(self).tareas() == old(self).tareas().remove(indice as int),
            r ==> final(self).en_reposo(),
            !r ==> final(self).tareas() == old(self).tareas() && final(self).arrastre() == old(self).arrastre() && final(self).edicion() == old(self).edicion() && final(self).borrador()
                == old(self).borrador(),
    {
        match self.id_a_borrar(indice) {
            None => false,
            Some(id) => {
                let borrado = self.db.eliminar_tarea(id).is_ok();
                self.quitar_si_borrado(indice, borrado);
                borrado
            },
        }
    }

    /// Flips the completion flag of the task at `indice` and writes it to the
    /// store; a failed write leaves the flag flipped in memory.
    pub fn alternar_completada(&mut self, indice: usize)
        requires
            old(self).bien_formada(),
        ensures
            indice < old(self).tareas().len() ==> final(self).operaciones() == old(self).operaciones().push(
                Operacion::Marcar(old(self).tareas()[indice as int].id, !old(self).tareas()[indice as int].checked),
            ),
            final(self).bien_formada(),
            indice < old(self).tareas().len() ==> final(self).tareas() == old(self).tareas().update(
                indice as int,
                con_marca(old(self).tareas()[indice as int], !old(self).tareas()[indice as int].checked),
            ),
            indice >= old(self).tareas().len() ==> *final(self) == *old(self),
            final(self).arrastre() == old(self).arrastre(),
            final(self).edicion() == old(self).edicion(),
            final(self).borrador() == old(self).borrador(),
    {
        if indice < self.todos.len() {
            let marcada = !self.todos[indice].checked;
            self.todos[indice].checked = marcada;
            let id = self.todos[indice].id;
            let _ = self.db.actualizar_tarea(id, marcada);
            assert(self.todos@ =~= old(self).todos@.update(
                indice as int,
                con_marca(old(self).todos@[indice as int], marcada),
            ));
        }
    }

    /// Starts editing the task at `indice`, with its description as the
    /// draft; the edit of another task, if any, is dropped.
    pub fn comenzar_edicion(&mut self, indice: usize)
        requires
            old(self).bien_formada(),
        ensures
            final(self).registro() == old(self).registro(),
            final(self).bien_formada(),
            final(self).tareas() == old(self).tareas(),
            final(self).arrastre() == old(self).arrastre(),
            indice < old(self).tareas().len() ==> final(self).edicion() == Some(indice)
                && final(self).borrador() == old(self).tareas()[indice as int].text@,
            indice >= old(self).tareas().len() ==> *final(self) == *old(self),
    {
        if indice < self.todos.len() {
            self.edit_text = self.todos[indice].text.clone();
            self.editing_index = Some(indice);
        }
    }

    /// Ends the edit in progress: a blank draft is refused and the edit goes
    /// on; otherwise the draft becomes the task's description in memory, is
    /// written to the store, and the edit ends. A failed write leaves the new
    /// description in memory. Returns whether an edit ended.
    pub fn confirmar_edicion(&mut self) -> (r: bool)
        requires
            old(self).bien_formada(),
        ensures
            r ==> final(self).operaciones() == old(self).operaciones().push(
                Operacion::Descripcion(old(self).tareas()[old(self).edicion()->Some_0 as int].id, old(self).borrador()),
            ),
            final(self).bien_formada(),
            final(self).arrastre() == old(self).arrastre(),
            r <==> (old(self).edicion() is Some && !blanco(old(self).borrador())),
            !r ==> *final(self) == *old(self),
            r ==> final(self).edicion() is None && final(self).borrador().len() == 0,
            r ==> final(self).tareas().len() == old(self).tareas().len(),
            r ==> forall|k: int|
                0 <= k < old(self).tareas().len() && k != old(self).edicion()->Some_0 ==> #[trigger] final(self).tareas()[k] == old(self).tareas()[k],
            r ==> ({
                let i = old(self).edicion()->Some_0 as int;
                &&& final(self).tareas()[i].text@ == old(self).borrador()
                &&& TodoItem::misma_tarea_salvo_texto(old(self).tareas()[i], final(self).tareas()[i])
            }),
    {
        match self.editing_index {
            Some(indice) => {
                if en_blanco(self.edit_text.as_str()) {
                    return false;
                }
                let texto = self.edit_text.clone();
                self.todos[indice].text = texto;
                let id = self.todos[indice].id;
                let _ = self.db.actualizar_descripcion(id, self.edit_text.as_str());
                self.editing_index = None;
                self.edit_text = String::new();
                true
            },
            None => false,
        }
    }

    /// Ends the edit in progress without changing any task.
    pub fn cancelar_edicion(&mut self)
        requires
            old(self).bien_formada(),
        ensures
            final(self).registro() == old(self).registro(),
            final(self).bien_formada(),
            final(self).tareas() == old(self).tareas(),
            final(self).arrastre() == old(self).arrastre(),
            final(self).edicion() is None,
            final(self).borrador().len() == 0,
    {
        self.editing_index = None;
        self.edit_text = String::new();
    }

    /// Starts the timer of the task at `indice`; a timer that already runs
    /// is left as it is.
    pub fn iniciar_temporizador(&mut self, indice: usize)
        requires
            old(self).bien_formada(),
        ensures
            final(self).registro() == old(self).registro(),
            final(self).bien_formada(),
            final(self).tareas().len() == old(self).tareas().len(),
            forall|k: int|
                0 <= k < old(self).tareas().len() && k != indice ==> #[trigger] final(self).tareas()[k]
                    == old(self).tareas()[k],
            indice < old(self).tareas().len() ==> TodoItem::iniciado(
                old(self).tareas()[indice as int],
                final(self).tareas()[indice as int],
            ),
            indice >= old(self).tareas().len() ==> *final(self) == *old(self),
            final(self).arrastre() == old(self).arrastre(),
            final(self).edicion() == old(self).edicion(),
            final(self).borrador() == old(self).borrador(),
    {
        if indice < self.todos.len() {
            self.todos[indice].iniciar_temporizador();
        }
    }

    /// Pauses the timer of the task at `indice`, folding its seconds into the
    /// accumulated time, which is written to the store.
    pub fn pausar_temporizador(&mut self, indice: usize)
        requires
            old(self).bien_formada(),
        ensures
            indice < old(self).tareas().len() ==> final(self).operaciones() == old(self).operaciones()
                + TodoItem::escritura_pausa(old(self).tareas()[indice as int], final(self).tareas()[indice as int]),
            final(self).bien_formada(),
            final(self).tareas().len() == old(self).tareas().len(),
            forall|k: int|
                0 <= k < old(self).tareas().len() && k != indice ==> #[trigger] final(self).tareas()[k]
                    == old(self).tareas()[k],
            indice < old(self).tareas().len() ==> exists|t: int|
                t >= 0 && TodoItem::pausado_con(
                    old(self).tareas()[indice as int],
                    t,
                    #[trigger] final(self).tareas()[indice as int],
                ),
            indice >= old(self).tareas().len() ==> *final(self) == *old(self),
            final(self).arrastre() == old(self).arrastre(),
            final(self).edicion() == old(self).edicion(),
            final(self).borrador() == old(self).borrador(),
    {
        if indice < self.todos.len() {
            self.todos[indice].pausar_temporizador(&mut self.db);
        }
    }

    /// Pauses the timer of the task at `indice` as if `transcurrido` seconds
    /// went by since it was started, and writes the accumulated time to the
    /// store.
    pub fn pausar_temporizador_con(&mut self, indice: usize, transcurrido: u64)
        requires
            old(self).bien_formada(),
        ensures
            indice < old(self).tareas().len() ==> final(self).operaciones() == old(self).operaciones()
                + TodoItem::escritura_pausa(old(self).tareas()[indice as int], final(self).tareas()[indice as int]),
            final(self).bien_formada(),
            final(self).tareas().len() == old(self).tareas().len(),
            forall|k: int|
                0 <= k < old(self).tareas().len() && k != indice ==> #[trigger] final(self).tareas()[k]
                    == old(self).tareas()[k],
            indice < old(self).tareas().len() ==> TodoItem::pausado_con(
                old(self).tareas()[indice as int],
                transcurrido as int,
                final(self).tareas()[indice as int],
            ),
            indice >= old(self).tareas().len() ==> *final(self) == *old(self),
            final(self).arrastre() == old(self).arrastre(),
            final(self).edicion() == old(self).edicion(),
            final(self).borrador() == old(self).borrador(),
    {
        if indice < self.todos.len() {
            self.todos[indice].pausar_temporizador_guardando(&mut self.db, transcurrido);
        }
    }

    /// Drops the timer and the time of the task at `indice`, and writes zero
    /// seconds to the store.
    pub fn resetear_temporizador(&mut self, indice: usize)
        requires
            old(self).bien_formada(),
        ensures
            indice < old(self).tareas().len() ==> final(self).operaciones() == old(self).operaciones().push(
                Operacion::Tiempo(old(self).tareas()[indice as int].id, 0),
            ),
            final(self).bien_formada(),
            final(self).tareas().len() == old(self).tareas().len(),
            forall|k: int|
                0 <= k < old(self).tareas().len() && k != indice ==> #[trigger] final(self).tareas()[k]
                    == old(self).tareas()[k],
            indice < old(self).tareas().len() ==> TodoItem::reseteado(
                old(self).tareas()[indice as int],
                final(self).tareas()[indice as int],
            ),
            indice >= old(self).tareas().len() ==> *final(self) == *old(self),
            final(self).arrastre() == old(self).arrastre(),
            final(self).edicion() == old(self).edicion(),
            final(self).borrador() == old(self).borrador(),
    {
        if indice < self.todos.len() {
            self.todos[indice].resetear_temporizador(&mut self.db);
        }
    }

    /// Begins dragging the task at `indice`, unless a drag is already in
    /// progress or there is no such task.
    pub fn comenzar_arrastre(&mut self, indice: usize)
        requires
            old(self).bien_formada(),
        ensures
            final(self).registro() == old(self).registro(),
            final(self).bien_formada(),
            final(self).tareas() == old(self).tareas(),
            final(self).edicion() == old(self).edicion(),
            final(self).borrador() == old(self).borrador(),
            final(self).arrastre() == if old(self).arrastre() is None && indice < old(self).tareas().len() {
                Some(indice)
            } else {
                old(self).arrastre()
            },
    {
        if self.drag_index.is_none() && indice < self.todos.len() {
            self.drag_index = Some(indice);
        }
    }

    /// One frame of a drag: when the pointer is over another task than the
    /// dragged one, the dragged task moves to that position and the drag
    /// follows it; when the pointer is released, the drag ends. Without a
    /// drag in progress nothing changes. The store is not written.
    pub fn paso_arrastre(&mut self, objetivo: Option<usize>, soltado: bool)
        requires
            old(self).bien_formada(),
        ensures
            final(self).registro() == old(self).registro(),
            final(self).bien_formada(),
            final(self).edicion() == old(self).edicion(),
            final(self).borrador() == old(self).borrador(),
            old(self).arrastre() is None ==> *final(self) == *old(self),
            old(self).arrastre() matches Some(i) ==> ({
                let movida = objetivo matches Some(j) && j < old(self).tareas().len() && j != i;
                &&& movida ==> final(self).tareas() == movido(
                    old(self).tareas(),
                    i as int,
                    objetivo->Some_0 as int,
                )
                &&& !movida ==> final(self).tareas() == old(self).tareas()
                &&& final(self).arrastre() == if soltado {
                    None
                } else if movida {
                    objetivo
                } else {
                    Some(i)
                }
            }),
    {
        if let Some(i) = self.drag_index {
            if let Some(j) = objetivo {
                if j < self.todos.len() && j != i {
                    mover(&mut self.todos, i, j);
                    self.drag_index = Some(j);
                    proof {
                        assert forall|k: int| 0 <= k < self.todos@.len() implies (
                        #[trigger] self.todos@[k]).bien_formada() by {
                            crate::reorden::lema_movido(old(self).todos@, i as int, j as int);
                            if k == j as int {
                            } else if k < i && k < j {
                            } else if k > i && k > j {
                            } else if i <= k && k < j {
                                assert(old(self).todos@[k + 1].bien_formada());
                            } else {
                                assert(old(self).todos@[k - 1].bien_formada());
                            }
                        }
                    }
                }
            }
            if soltado {
                self.drag_index = None;
            }
        }
    }

    /// The whole seconds of each task now, in display order.
    pub fn tiempos_totales(&self) -> (r: Vec<i32>)
        requires
            self.bien_formada(),
        ensures
            r@.len() == self.tareas().len(),
            forall|k: int| 0 <= k < r@.len() ==> self.tareas()[k].admite_total(#[trigger] r@[k] as int),
            forall|k: int| 0 <= k < r@.len() ==> #[trigger] r@[k] >= 0,
    {
        let mut r: Vec<i32> = Vec::new();
        let mut i: usize = 0;
        while i < self.todos.len()
            invariant
                self.bien_formada(),
                i <= self.todos@.len(),
                r@.len() == i,
                forall|k: int| 0 <= k < i ==> self.todos@[k].admite_total(#[trigger] r@[k] as int),
                forall|k: int| 0 <= k < i ==> #[trigger] r@[k] >= 0,
            decreases self.todos@.len() - i,
        {
            let x = self.todos[i].tiempo_total();
            r.push(x);
            i = i + 1;
        }
        r
    }

    /// The counts and the total time of the list, given the time of each task.
    pub fn resumen_con(&self, tiempos: &Vec<i32>) -> (r: Resumen)
        requires
            forall|k: int| 0 <= k < tiempos@.len() ==> #[trigger] tiempos@[k] >= 0,
        ensures
            r.total == self.tareas().len(),
            r.completadas == cuenta_completadas(self.tareas()),
            r.pendientes == self.tareas().len() - cuenta_completadas(self.tareas()),
            r.segundos == tope_u64(suma(tiempos@)),
    {
        let total = self.todos.len();
        let completadas = contar_completadas(&self.todos);
        proof {
            lema_cuenta_acotada(self.todos@);
        }
        Resumen { total, completadas, pendientes: total - completadas, segundos: sumar_tiempos(tiempos) }
    }

    /// The counts and the total time of the list now.
    pub fn resumen(&self) -> (r: Resumen)
        requires
            self.bien_formada(),
        ensures
            r.total == self.tareas().len(),
            r.completadas == cuenta_completadas(self.tareas()),
            r.pendientes == self.tareas().len() - cuenta_completadas(self.tareas()),
            exists|tiempos: Seq<i32>|
                {
                    &&& tiempos.len() == self.tareas().len()
                    &&& forall|k: int|
                        0 <= k < tiempos.len() ==> self.tareas()[k].admite_total(#[trigger] tiempos[k] as int)
                    &&& r.segundos == tope_u64(#[trigger] suma(tiempos))
                },
    {
        let tiempos = self.tiempos_totales();
        let r = self.resumen_con(&tiempos);
        assert(r.segundos == tope_u64(suma(tiempos@)));
        r
    }
}

} // verus!
