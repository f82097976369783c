//! A personal task list: task records with a completion flag and an
//! elapsed-work timer, a SQLite-backed store, and the session logic that
//! reorders, edits and times the tasks.

mod almacen;
mod reorden;
mod sesion;
mod tarea;

pub use almacen::{
    a_sembrar, apertura, decodificadas, decodificar_filas, ejemplos, exitosas, fila_valida,
    filas_legibles, hasta_el_fallo, inserciones, parametros_borrar, parametros_marcar,
    parametros_tiempo, pedidas, siembra, tarea_de_fila, tareas_de_ejemplo, Db, ErrorAlmacen,
    FilaCruda, Operacion,
};
pub use reorden::{lema_movido, mover, movido, primer_objetivo};
pub use sesion::{
    blanco, cargada, con_marca, con_temporizador, con_temporizadores, conservar_temporizadores,
    contar_completadas, cuenta_completadas, desglose, en_blanco, es_espacio, espacio_unicode, suma,
    sumar_tiempos, tareas_o_ninguna, temporizador_de, tope_u64, Resumen, Sesion,
};
pub use tarea::{
    lema_iniciar_pausar, lema_reiniciar_no_reinicia, lema_resetear, suma_saturada, Timer, TodoItem,
};
