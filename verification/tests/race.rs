use std::sync::{Arc, Mutex};
use sync_stores::db::StorageDb;
use sync_stores::error::ErrorKind;

#[test]
fn two_claimants_for_the_sync_connection() {
    let db = Arc::new(Mutex::new(StorageDb::with_connection("/tmp/race.db".to_string(), 1, ())));
    let claimants = [Arc::clone(&db), Arc::clone(&db)];
    let outcomes: Vec<_> =
        claimants.iter().map(|db| db.lock().unwrap().open_sync_connection()).collect();
    let winners: Vec<_> = outcomes.iter().filter(|o| o.is_ok()).collect();
    assert_eq!(winners.len(), 1);
    assert!(outcomes.iter().any(|o| *o == Err(ErrorKind::ConnectionAlreadyOpen)));
    let request = outcomes.into_iter().find_map(|o| o.ok()).unwrap();
    let conn = db.lock().unwrap().sync_connection(Ok(())).unwrap();
    assert_eq!(
        claimants[1].lock().unwrap().open_sync_connection(),
        Err(ErrorKind::ConnectionAlreadyOpen)
    );
    assert_eq!(claimants[0].lock().unwrap().close_sync_connection(conn), Ok(()));
    assert!(claimants[1].lock().unwrap().open_sync_connection().is_ok());
}
