use ticket_service::ctx::Ctx;
use ticket_service::error::Error;
use ticket_service::model::{ModelController, TicketForCreate};

fn mc() -> ModelController {
    ModelController::new().expect("a fresh store")
}

fn create(mc: &mut ModelController, ctx: Ctx, title: &str) -> ticket_service::model::Ticket {
    mc.create_ticket(ctx, TicketForCreate { title: title.to_owned() }).expect("create never fails")
}

#[test]
fn create_assigns_sequential_ids() {
    let mut mc = mc();
    let ctx = Ctx::new(7);
    for expected in 0u64..5 {
        let t = create(&mut mc, ctx, "t");
        assert_eq!(t.id, expected);
        assert_eq!(t.cid, 7);
    }
}

#[test]
fn create_returns_given_title() {
    let mut mc = mc();
    let t = create(&mut mc, Ctx::new(1), "My first ticket");
    assert_eq!(t.id, 0);
    assert_eq!(t.cid, 1);
    assert_eq!(t.title, "My first ticket");
}

#[test]
fn list_returns_tickets_in_creation_order() {
    let mut mc = mc();
    let ctx = Ctx::new(1);
    create(&mut mc, ctx, "a");
    create(&mut mc, ctx, "b");
    create(&mut mc, ctx, "c");
    let listed = mc.list_tickets(ctx).expect("list never fails");
    let titles: Vec<&str> = listed.iter().map(|t| t.title.as_str()).collect();
    assert_eq!(titles, vec!["a", "b", "c"]);
    let ids: Vec<u64> = listed.iter().map(|t| t.id).collect();
    assert_eq!(ids, vec![0, 1, 2]);
}

#[test]
fn delete_keeps_other_ids_stable() {
    let mut mc = mc();
    let ctx = Ctx::new(1);
    create(&mut mc, ctx, "a");
    create(&mut mc, ctx, "b");
    create(&mut mc, ctx, "c");
    let removed = mc.delete_ticket(ctx, 1).expect("present id");
    assert_eq!(removed.id, 1);
    assert_eq!(removed.title, "b");
    let listed = mc.list_tickets(ctx).expect("list never fails");
    let ids: Vec<u64> = listed.iter().map(|t| t.id).collect();
    assert_eq!(ids, vec![0, 2]);
    // ids are not reused: the next create takes a fresh slot
    let t = create(&mut mc, ctx, "d");
    assert_eq!(t.id, 3);
}

#[test]
fn delete_missing_id_fails_with_not_found_echoing_id() {
    let mut mc = mc();
    let ctx = Ctx::new(1);
    let err = mc.delete_ticket(ctx, 5).expect_err("nothing was created");
    assert_eq!(err, Error::TicketDeleteFailIdNotFound { id: 5 });
}

#[test]
fn delete_twice_fails_the_second_time() {
    let mut mc = mc();
    let ctx = Ctx::new(1);
    create(&mut mc, ctx, "a");
    mc.delete_ticket(ctx, 0).expect("present id");
    let err = mc.delete_ticket(ctx, 0).expect_err("already tombstoned");
    assert_eq!(err, Error::TicketDeleteFailIdNotFound { id: 0 });
    let listed = mc.list_tickets(ctx).expect("list never fails");
    assert!(listed.is_empty());
}
