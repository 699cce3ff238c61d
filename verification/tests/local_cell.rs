use local_async::local_cell::{LocalCell, LocalCellRef, LocalStore};

#[test]
fn cell_collects_ids_on_its_thread() {
    let mut store = LocalStore::new(3);
    let mut cell = LocalCell::new(&mut store);
    let r = LocalCellRef::from(&cell);
    assert_eq!(r.notify(&mut store, 5), Ok(true));
    assert_eq!(r.notify(&mut store, 5), Ok(false));
    assert_eq!(r.notify(&mut store, 2), Ok(true));
    let ids: Vec<usize> = cell.fetch(&mut store).into_iter().collect();
    assert_eq!(ids, vec![2, 5]);
    assert!(cell.fetch(&mut store).is_empty());
    cell.release(&mut store);
    assert_eq!(r.notify(&mut store, 1), Err(()));
}

#[test]
fn other_thread_is_refused() {
    let mut store = LocalStore::new(3);
    let cell = LocalCell::new(&mut store);
    let r = LocalCellRef::from(&cell);
    let mut other = LocalStore::new(4);
    assert_eq!(r.notify(&mut other, 5), Err(()));
    cell.release(&mut store);
}
