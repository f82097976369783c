//! Task records and their elapsed-time tracker.
use crate::almacen::{Db, Operacion};
use std::time::Instant;
use vstd::prelude::*;

verus! {

#[verifier::external_type_specification]
#[verifier::external_body]
pub struct ExInstant(Instant);

/// Relies on `std::time::Instant::now`: a reading of the monotonic clock.
/// Nothing is known of the value it returns.
#[verifier::external_body]
fn instante_actual() -> (r: Instant) {
    Instant::now()
}

/// Relies on `Instant::elapsed` and `Duration::as_secs`: the whole seconds
/// (truncated) that went by since `inicio`. The value depends on the clock.
#[verifier::external_body]
fn segundos_desde(inicio: &Instant) -> (r: u64) {
    inicio.elapsed().as_secs()
}

/// `a + b` capped at the largest `i32`.
pub open spec fn suma_saturada(a: int, b: int) -> int {
    if a + b > i32::MAX {
        i32::MAX as int
    } else {
        a + b
    }
}

/// Adds `t` seconds to `a`, capped at the largest `i32`.
fn sumar_segundos(a: i32, t: u64) -> (r: i32)
    requires
        a >= 0,
    ensures
        r == suma_saturada(a as int, t as int),
{
    if t >= i32::MAX as u64 {
        i32::MAX
    } else {
        let suma: i64 = a as i64 + t as i64;
        if suma > i32::MAX as i64 {
            i32::MAX
        } else {
            suma as i32
        }
    }
}

/// A running timer: the instant it was started.
pub struct Timer {
    pub inicio: Instant,
    pub activo: bool,
}

/// One task: its durable fields and, while it is being timed, its timer.
pub struct TodoItem {
    pub id: i32,
    pub text: String,
    pub checked: bool,
    pub tiempo_acumulado: i32,
    pub temporizador: Option<Timer>,
}

impl TodoItem {
    /// The accumulated seconds are non-negative and a timer that exists is running.
    pub open spec fn bien_formada(&self) -> bool {
        &&& self.tiempo_acumulado >= 0
        &&& (self.temporizador matches Some(t) ==> t.activo)
    }

    /// The durable component of the elapsed time, in seconds.
    pub open spec fn acumulado(&self) -> int {
        self.tiempo_acumulado as int
    }

    /// Whether the task is being timed.
    pub open spec fn corriendo(&self) -> bool {
        self.temporizador matches Some(t) && t.activo
    }

    /// The total elapsed time when `transcurrido` seconds went by since the
    /// timer was started.
    pub open spec fn total_con(&self, transcurrido: int) -> int {
        if self.corriendo() {
            suma_saturada(self.acumulado(), transcurrido)
        } else {
            self.acumulado()
        }
    }

    /// `x` is the total elapsed time for some number of seconds since the
    /// timer was started.
    pub open spec fn admite_total(&self, x: int) -> bool {
        exists|t: int| t >= 0 && x == self.total_con(t)
    }

    /// `b` is `a` with the same id, text and completion flag.
    pub open spec fn misma_tarea(a: TodoItem, b: TodoItem) -> bool {
        &&& b.id == a.id
        &&& b.text == a.text
        &&& b.checked == a.checked
    }

    /// `b` is `a` with the same id, completion flag, time and timer; only the
    /// description may differ.
    pub open spec fn misma_tarea_salvo_texto(a: TodoItem, b: TodoItem) -> bool {
        &&& b.id == a.id
        &&& b.checked == a.checked
        &&& b.tiempo_acumulado == a.tiempo_acumulado
        &&& b.temporizador == a.temporizador
    }

    /// `b` is what starting the timer of `a` leaves: `a` itself when it was
    /// already running, else a running timer over the same accumulated time.
    pub open spec fn iniciado(a: TodoItem, b: TodoItem) -> bool {
        if a.corriendo() {
            b == a
        } else {
            &&& b.corriendo()
            &&& b.acumulado() == a.acumulado()
            &&& TodoItem::misma_tarea(a, b)
        }
    }

    /// `b` is what pausing `a` leaves when `transcurrido` seconds went by since
    /// its timer was started: those seconds are folded into the accumulated
    /// time and the timer is gone.
    pub open spec fn pausado_con(a: TodoItem, transcurrido: int, b: TodoItem) -> bool {
        &&& !b.corriendo()
        &&& b.acumulado() == a.total_con(transcurrido)
        &&& TodoItem::misma_tarea(a, b)
    }

    /// What pausing `a` into `b` writes to the store: the new seconds when a
    /// timer was running, nothing otherwise.
    pub open spec fn escritura_pausa(a: TodoItem, b: TodoItem) -> Seq<Operacion> {
        if a.corriendo() {
            seq![Operacion::Tiempo(b.id, b.tiempo_acumulado)]
        } else {
            Seq::empty()
        }
    }

    /// `b` is what resetting `a` leaves: no time and no timer.
    pub open spec fn reseteado(a: TodoItem, b: TodoItem) -> bool {
        &&& !b.corriendo()
        &&& b.acumulado() == 0
        &&& TodoItem::misma_tarea(a, b)
    }

    /// A stopped task with the given fields.
    pub fn nueva(id: i32, text: String, checked: bool, tiempo_acumulado: i32) -> (r: TodoItem)
        requires
            tiempo_acumulado >= 0,
        ensures
            r.bien_formada(),
            r.id == id,
            r.text == text,
            r.checked == checked,
            r.acumulado() == tiempo_acumulado,
            !r.corriendo(),
    {
        TodoItem { id, text, checked, tiempo_acumulado, temporizador: None }
    }

    /// The durable component of the elapsed time, in seconds.
    pub fn tiempo_acumulado(&self) -> (r: i32)
        ensures
            r == self.acumulado(),
    {
        self.tiempo_acumulado
    }

    /// The total elapsed time when `transcurrido` seconds went by since the
    /// timer was started.
    pub fn tiempo_total_con(&self, transcurrido: u64) -> (r: i32)
        requires
            self.bien_formada(),
        ensures
            r == self.total_con(transcurrido as int),
    {
        match &self.temporizador {
            Some(timer) if timer.activo => sumar_segundos(self.tiempo_acumulado, transcurrido),
            _ => self.tiempo_acumulado,
        }
    }

    /// The total elapsed time now: the accumulated seconds, plus the whole
    /// seconds since the timer was started while it runs.
    pub fn tiempo_total(&self) -> (r: i32)
        requires
            self.bien_formada(),
        ensures
            self.admite_total(r as int),
            !self.corriendo() ==> r == self.acumulado(),
    {
        match &self.temporizador {
            Some(timer) if timer.activo => {
                let t = segundos_desde(&timer.inicio);
                let r = self.tiempo_total_con(t);
                assert(r == self.total_con(t as int));
                r
            },
            _ => {
                assert(self.tiempo_acumulado == self.total_con(0));
                self.tiempo_acumulado
            },
        }
    }

    /// Whether the task is being timed.
    pub fn temporizador_activo(&self) -> (r: bool)
        ensures
            r == self.corriendo(),
    {
        match &self.temporizador {
            Some(timer) => timer.activo,
            None => false,
        }
    }

    /// Starts the timer; a timer that already runs is left as it is.
    pub fn iniciar_temporizador(&mut self)
        requires
            old(self).bien_formada(),
        ensures
            final(self).bien_formada(),
            TodoItem::iniciado(*old(self), *final(self)),
    {
        if !self.temporizador_activo() {
            self.temporizador = Some(Timer { inicio: instante_actual(), activo: true });
        }
    }

    /// Stops the timer after `transcurrido` seconds and folds them into the
    /// accumulated time. Without a timer only the state is confirmed stopped.
    pub fn pausar_temporizador_con(&mut self, transcurrido: u64)
        requires
            old(self).bien_formada(),
        ensures
            final(self).bien_formada(),
            TodoItem::pausado_con(*old(self), transcurrido as int, *final(self)),
    {
        self.tiempo_acumulado = self.tiempo_total_con(transcurrido);
        self.temporizador = None;
    }

    /// Stops the timer after `transcurrido` seconds, folds them into the
    /// accumulated time and, when there was a timer, writes that time to the
    /// store. A write that fails leaves the task as paused in memory.
    pub fn pausar_temporizador_guardando(&mut self, db: &mut Db, transcurrido: u64)
        requires
            old(self).bien_formada(),
        ensures
            final(self).bien_formada(),
            TodoItem::pausado_con(*old(self), transcurrido as int, *final(self)),
            final(db).operaciones() == old(db).operaciones() + TodoItem::escritura_pausa(
                *old(self),
                *final(self),
            ),
    {
        let tenia = self.temporizador_activo();
        self.pausar_temporizador_con(transcurrido);
        if tenia {
            let _ = db.actualizar_tiempo(self.id, self.tiempo_acumulado);
        }
        assert(db.operaciones() =~= old(db).operaciones() + TodoItem::escritura_pausa(*old(self), *self));
    }

    /// Stops the timer, folds the whole seconds since it was started into the
    /// accumulated time and writes that time to the store. A write that fails
    /// leaves the task as paused in memory.
    pub fn pausar_temporizador(&mut self, db: &mut Db)
        requires
            old(self).bien_formada(),
        ensures
            final(self).bien_formada(),
            exists|t: int| t >= 0 && TodoItem::pausado_con(*old(self), t, *final(self)),
            final(db).operaciones() == old(db).operaciones() + TodoItem::escritura_pausa(
                *old(self),
                *final(self),
            ),
    {
        let t: u64 = match &self.temporizador {
            Some(timer) => segundos_desde(&timer.inicio),
            None => 0,
        };
        self.pausar_temporizador_guardando(db, t);
        assert(TodoItem::pausado_con(*old(self), t as int, *self));
    }

    /// Drops the timer and the accumulated time, and writes zero seconds to
    /// the store. A write that fails leaves the task reset in memory.
    pub fn resetear_temporizador(&mut self, db: &mut Db)
        requires
            old(self).bien_formada(),
        ensures
            final(self).bien_formada(),
            TodoItem::reseteado(*old(self), *final(self)),
            final(db).operaciones() == old(db).operaciones().push(Operacion::Tiempo(old(self).id, 0)),
    {
        self.resetear_temporizador_en_memoria();
        let _ = db.actualizar_tiempo(self.id, 0);
    }

    /// Drops the timer and the accumulated time.
    pub fn resetear_temporizador_en_memoria(&mut self)
        requires
            old(self).bien_formada(),
        ensures
            final(self).bien_formada(),
            TodoItem::reseteado(*old(self), *final(self)),
    {
        self.tiempo_acumulado = 0;
        self.temporizador = None;
    }
}

/// A task that is started and then paused `t` seconds after its timer
/// started ends stopped, with `t` seconds more than it had (capped at the
/// largest `i32`).
pub proof fn lema_iniciar_pausar(a: TodoItem, b: TodoItem, t: int, c: TodoItem)
    requires
        a.bien_formada(),
        t >= 0,
        TodoItem::iniciado(a, b),
        TodoItem::pausado_con(b, t, c),
    ensures
        !c.corriendo(),
        c.acumulado() == suma_saturada(a.acumulado(), t),
        TodoItem::misma_tarea(a, c),
{
}

/// Starting a task whose timer runs changes nothing: the start instant is
/// kept, so a later pause counts the seconds since the first start.
pub proof fn lema_reiniciar_no_reinicia(a: TodoItem, b: TodoItem, c: TodoItem, t: int, d: TodoItem)
    requires
        TodoItem::iniciado(a, b),
        TodoItem::iniciado(b, c),
        TodoItem::pausado_con(c, t, d),
    ensures
        c == b,
        TodoItem::pausado_con(b, t, d),
{
}

/// Resetting leaves a stopped task with no time, whatever state it was in.
pub proof fn lema_resetear(a: TodoItem, b: TodoItem)
    requires
        TodoItem::reseteado(a, b),
    ensures
        !b.corriendo(),
        b.acumulado() == 0,
        b.total_con(0) == 0,
{
}

} // verus!
