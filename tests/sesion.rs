use pixi::{
    conservar_temporizadores, contar_completadas, desglose, en_blanco, es_espacio, mover, primer_objetivo, sumar_tiempos,
    tareas_o_ninguna, Db, ErrorAlmacen, Sesion, TodoItem,
};

fn abrir() -> Sesion {
    match Sesion::abrir(":memory:") {
        Ok(s) => s,
        Err(ErrorAlmacen::Sqlite(e)) => panic!("cannot open: {e}"),
    }
}

fn ids(s: &Sesion) -> Vec<i32> {
    s.todos().iter().map(|t| t.id).collect()
}

#[test]
fn start_then_pause_adds_the_elapsed_seconds() {
    let mut t = TodoItem::nueva(1, "a".to_string(), false, 10);
    t.iniciar_temporizador();
    assert!(t.temporizador_activo());
    assert_eq!(t.tiempo_total_con(7), 17);
    t.pausar_temporizador_con(7);
    assert!(!t.temporizador_activo());
    assert_eq!(t.tiempo_acumulado(), 17);
    assert_eq!(t.tiempo_total(), 17);
    assert_eq!(t.tiempo_total_con(100), 17);
}

#[test]
fn reset_clears_time_and_timer_in_either_state() {
    let mut t = TodoItem::nueva(1, "a".to_string(), false, 42);
    t.resetear_temporizador_en_memoria();
    assert_eq!(t.tiempo_acumulado(), 0);
    assert!(!t.temporizador_activo());
    let mut u = TodoItem::nueva(2, "b".to_string(), true, 42);
    u.iniciar_temporizador();
    u.resetear_temporizador_en_memoria();
    assert_eq!(u.tiempo_acumulado(), 0);
    assert!(!u.temporizador_activo());
    assert_eq!(u.tiempo_total(), 0);
    assert!(u.checked);
}

#[test]
fn starting_a_running_timer_keeps_its_start() {
    let mut t = TodoItem::nueva(1, "a".to_string(), false, 0);
    t.iniciar_temporizador();
    let inicio = t.temporizador.as_ref().map(|x| x.inicio);
    t.iniciar_temporizador();
    assert_eq!(t.temporizador.as_ref().map(|x| x.inicio), inicio);
    t.pausar_temporizador_con(9);
    assert_eq!(t.tiempo_acumulado(), 9);
}

#[test]
fn elapsed_time_saturates_at_the_largest_i32() {
    let mut t = TodoItem::nueva(1, "a".to_string(), false, i32::MAX - 3);
    t.iniciar_temporizador();
    assert_eq!(t.tiempo_total_con(2), i32::MAX - 1);
    assert_eq!(t.tiempo_total_con(u64::MAX), i32::MAX);
    t.pausar_temporizador_con(10);
    assert_eq!(t.tiempo_acumulado(), i32::MAX);
}

#[test]
fn pausing_without_a_timer_keeps_the_time() {
    let mut t = TodoItem::nueva(1, "a".to_string(), false, 5);
    t.pausar_temporizador_con(30);
    assert_eq!(t.tiempo_acumulado(), 5);
}

#[test]
fn pause_and_reset_write_the_time_to_the_store() {
    let mut db = match Db::new(":memory:") {
        Ok(db) => db,
        Err(ErrorAlmacen::Sqlite(e)) => panic!("cannot open: {e}"),
    };
    let mut tareas = db.cargar_tareas().ok().unwrap_or_default();
    tareas[0].iniciar_temporizador();
    tareas[0].pausar_temporizador_guardando(&mut db, 12);
    tareas[1].iniciar_temporizador();
    tareas[1].pausar_temporizador(&mut db);
    let recargadas = db.cargar_tareas().ok().unwrap_or_default();
    assert_eq!(recargadas[0].tiempo_acumulado(), 12);
    assert_eq!(recargadas[1].tiempo_acumulado(), tareas[1].tiempo_acumulado());
    tareas[0].resetear_temporizador(&mut db);
    let recargadas = db.cargar_tareas().ok().unwrap_or_default();
    assert_eq!(recargadas[0].tiempo_acumulado(), 0);
}

#[test]
fn moving_first_to_third_and_last_to_first() {
    let mut v = vec!['A', 'B', 'C', 'D'];
    mover(&mut v, 0, 2);
    assert_eq!(v, vec!['B', 'C', 'A', 'D']);
    let mut w = vec!['A', 'B', 'C', 'D'];
    mover(&mut w, 3, 0);
    assert_eq!(w, vec!['D', 'A', 'B', 'C']);
}

#[test]
fn the_first_region_that_holds_the_pointer_wins() {
    assert_eq!(primer_objetivo(&vec![false, true, true]), Some(1));
    assert_eq!(primer_objetivo(&vec![false, false]), None);
    assert_eq!(primer_objetivo(&Vec::new()), None);
}

#[test]
fn dragging_moves_live_and_release_ends_the_drag() {
    let mut s = abrir();
    s.comenzar_arrastre(0);
    assert_eq!(s.drag_index(), Some(0));
    s.paso_arrastre(Some(2), false);
    assert_eq!(ids(&s)[..4], [2, 3, 1, 4]);
    assert_eq!(s.drag_index(), Some(2));
    s.paso_arrastre(Some(2), false);
    assert_eq!(ids(&s)[..4], [2, 3, 1, 4]);
    s.paso_arrastre(None, true);
    assert_eq!(s.drag_index(), None);
    assert_eq!(ids(&s)[..4], [2, 3, 1, 4]);
}

#[test]
fn dragging_last_to_first() {
    let mut s = abrir();
    s.reload_tasks();
    let n = s.todos().len();
    s.comenzar_arrastre(n - 1);
    s.paso_arrastre(Some(0), true);
    assert_eq!(ids(&s)[..3], [10, 1, 2]);
    assert_eq!(s.drag_index(), None);
}

#[test]
fn a_second_drag_start_is_ignored_and_no_drag_means_no_move() {
    let mut s = abrir();
    s.paso_arrastre(Some(3), false);
    assert_eq!(ids(&s), (1..=10).collect::<Vec<i32>>());
    s.comenzar_arrastre(1);
    s.comenzar_arrastre(5);
    assert_eq!(s.drag_index(), Some(1));
    s.comenzar_arrastre(0);
    s.paso_arrastre(Some(40), false);
    assert_eq!(ids(&s), (1..=10).collect::<Vec<i32>>());
    assert_eq!(s.drag_index(), Some(1));
}

#[test]
fn reload_restores_the_store_order_after_drags() {
    let mut s = abrir();
    s.comenzar_arrastre(0);
    s.paso_arrastre(Some(5), false);
    s.paso_arrastre(Some(9), true);
    s.comenzar_arrastre(3);
    s.paso_arrastre(Some(1), true);
    assert_ne!(ids(&s), (1..=10).collect::<Vec<i32>>());
    s.reload_tasks();
    assert_eq!(ids(&s), (1..=10).collect::<Vec<i32>>());
}

#[test]
fn add_complete_time_and_delete_a_task() {
    let mut s = abrir();
    assert!(s.agregar("Buy milk"));
    let i = s.todos().iter().position(|t| t.text == "Buy milk").unwrap();
    assert!(!s.todo_at(i).checked);
    assert_eq!(s.todo_at(i).tiempo_acumulado(), 0);
    s.alternar_completada(i);
    s.reload_tasks();
    assert!(s.todo_at(i).checked);
    s.iniciar_temporizador(i);
    assert!(s.todo_at(i).temporizador_activo());
    s.pausar_temporizador_con(i, 5);
    s.reload_tasks();
    assert_eq!(s.todo_at(i).tiempo_acumulado(), 5);
    let id = s.todo_at(i).id;
    assert!(s.delete_task(i));
    s.reload_tasks();
    assert!(s.todos().iter().all(|t| t.id != id && t.text != "Buy milk"));
}

#[test]
fn blank_descriptions_are_refused() {
    let mut s = abrir();
    assert!(!s.agregar(""));
    assert!(!s.agregar(" \t\u{3000} "));
    assert_eq!(s.todos().len(), 10);
}

#[test]
fn deleting_out_of_range_does_nothing() {
    let mut s = abrir();
    assert!(!s.delete_task(10));
    assert_eq!(s.todos().len(), 10);
    assert!(s.delete_task(9));
    assert_eq!(s.todos().len(), 9);
}

#[test]
fn editing_commits_trimmed_nonblank_text_only() {
    let mut s = abrir();
    s.comenzar_edicion(2);
    assert_eq!(s.editing_index(), Some(2));
    assert_eq!(s.edit_text(), "Revisar correo electrónico importante");
    s.fijar_texto_edicion("   ".to_string());
    assert!(!s.confirmar_edicion());
    assert_eq!(s.editing_index(), Some(2));
    s.fijar_texto_edicion("Revisar correo".to_string());
    assert!(s.confirmar_edicion());
    assert_eq!(s.editing_index(), None);
    assert_eq!(s.edit_text(), "");
    assert_eq!(s.todo_at(2).text, "Revisar correo");
    s.reload_tasks();
    assert_eq!(s.todo_at(2).text, "Revisar correo");
}

#[test]
fn cancelling_an_edit_changes_no_task() {
    let mut s = abrir();
    s.comenzar_edicion(0);
    s.fijar_texto_edicion("otra cosa".to_string());
    s.cancelar_edicion();
    assert_eq!(s.editing_index(), None);
    assert_eq!(s.edit_text(), "");
    assert_eq!(s.todo_at(0).text, "Comprar leche y pan en el supermercado");
    assert!(!s.confirmar_edicion());
}

#[test]
fn reset_through_the_session_is_durable() {
    let mut s = abrir();
    s.iniciar_temporizador(1);
    s.pausar_temporizador_con(1, 90);
    assert_eq!(s.todo_at(1).tiempo_acumulado(), 90);
    s.resetear_temporizador(1);
    assert_eq!(s.todo_at(1).tiempo_acumulado(), 0);
    s.reload_tasks();
    assert_eq!(s.todo_at(1).tiempo_acumulado(), 0);
    s.iniciar_temporizador(3);
    s.pausar_temporizador(3);
    assert!(!s.todo_at(3).temporizador_activo());
}

#[test]
fn summary_counts_and_sums() {
    let mut s = abrir();
    s.alternar_completada(0);
    s.alternar_completada(4);
    s.iniciar_temporizador(1);
    s.pausar_temporizador_con(1, 3725);
    let r = s.resumen_con(&vec![3725, 0, 15]);
    assert_eq!(r.total, 10);
    assert_eq!(r.completadas, 2);
    assert_eq!(r.pendientes, 8);
    assert_eq!(r.segundos, 3740);
    let ahora = s.resumen();
    assert_eq!(ahora.segundos, 3725);
    assert_eq!(contar_completadas(s.todos()), 2);
}

#[test]
fn hours_minutes_seconds() {
    assert_eq!(desglose(3725), (1, 2, 5));
    assert_eq!(desglose(0), (0, 0, 0));
    assert_eq!(desglose(59), (0, 0, 59));
    assert_eq!(desglose(86399), (23, 59, 59));
}

#[test]
fn sums_saturate() {
    assert_eq!(sumar_tiempos(&vec![1, 2, 3]), 6);
    assert_eq!(sumar_tiempos(&Vec::new()), 0);
    assert_eq!(sumar_tiempos(&vec![i32::MAX, i32::MAX]), 2 * i32::MAX as u64);
}

#[test]
fn white_space_is_unicode_white_space() {
    assert!(es_espacio(' '));
    assert!(es_espacio('\n'));
    assert!(es_espacio('\u{a0}'));
    assert!(es_espacio('\u{2009}'));
    assert!(!es_espacio('a'));
    assert!(!es_espacio('\u{200b}'));
    for c in ['\t', ' ', '\u{85}', '\u{1680}', '\u{202f}', '\u{3000}', 'x', '\u{200b}'] {
        assert_eq!(es_espacio(c), c.is_whitespace());
    }
    assert!(en_blanco(""));
    assert!(en_blanco(" \r\n"));
    assert!(!en_blanco("  a "));
}

#[test]
fn failed_loads_give_an_empty_list() {
    let vacia = tareas_o_ninguna(Err(ErrorAlmacen::Sqlite(rusqlite::Error::QueryReturnedNoRows)));
    assert!(vacia.is_empty());
    let una = tareas_o_ninguna(Ok(vec![TodoItem::nueva(3, "x".to_string(), true, 1)]));
    assert_eq!(una.len(), 1);
    assert_eq!(una[0].id, 3);
}

#[test]
fn reload_keeps_running_timers_by_id() {
    let mut s = abrir();
    s.iniciar_temporizador(2);
    let inicio = s.todo_at(2).temporizador.as_ref().map(|t| t.inicio);
    s.comenzar_arrastre(2);
    s.paso_arrastre(Some(0), true);
    assert_eq!(s.todo_at(0).id, 3);
    s.reload_tasks();
    assert_eq!(ids(&s), (1..=10).collect::<Vec<i32>>());
    assert!(s.todo_at(2).temporizador_activo());
    assert_eq!(s.todo_at(2).temporizador.as_ref().map(|t| t.inicio), inicio);
    assert!(s.todos().iter().filter(|t| t.temporizador_activo()).count() == 1);
    s.pausar_temporizador_con(2, 4);
    s.reload_tasks();
    assert_eq!(s.todo_at(2).tiempo_acumulado(), 4);
    assert!(!s.todo_at(2).temporizador_activo());
}

#[test]
fn merging_timers_matches_ids_and_ignores_stopped_tasks() {
    let mut a = TodoItem::nueva(5, "a".to_string(), false, 0);
    a.iniciar_temporizador();
    let b = TodoItem::nueva(6, "b".to_string(), false, 3);
    let antes = vec![b, a];
    let cargadas = vec![
        TodoItem::nueva(6, "b".to_string(), true, 8),
        TodoItem::nueva(7, "c".to_string(), false, 0),
        TodoItem::nueva(5, "a2".to_string(), false, 2),
    ];
    let r = conservar_temporizadores(&antes, cargadas);
    assert_eq!(r.iter().map(|t| t.temporizador_activo()).collect::<Vec<bool>>(), vec![false, false, true]);
    assert_eq!(r[2].text, "a2");
    assert_eq!(r[2].tiempo_acumulado(), 2);
    assert_eq!(r[2].tiempo_total_con(10), 12);
    assert!(r[0].checked);
    assert_eq!(r[0].tiempo_acumulado(), 8);
}

#[test]
fn delete_goes_by_the_id_at_the_position() {
    let mut s = abrir();
    assert_eq!(s.id_a_borrar(3), Some(4));
    assert_eq!(s.id_a_borrar(10), None);
    s.comenzar_arrastre(0);
    s.paso_arrastre(Some(3), true);
    assert_eq!(s.id_a_borrar(3), Some(1));
    assert_eq!(s.posicion_de(1), Some(3));
    assert_eq!(s.posicion_de(99), None);
    assert!(s.delete_task(3));
    assert!(s.todos().iter().all(|t| t.id != 1));
    s.reload_tasks();
    assert_eq!(ids(&s), (2..=10).collect::<Vec<i32>>());
}
