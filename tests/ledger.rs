use flyter::{add_like, draft_reply, flyt_key, stats_key, Address, Contract, Error, Flyt, FlytStats};

fn addr(b: u8) -> Address {
    Address::new(vec![b; 32])
}

#[test]
fn test_send_flyt() {
    let mut contract = Contract::new();
    let invoker = addr(1);
    let recipient = addr(2);

    let id = contract.send_flyt(invoker.clone(), recipient.clone(), vec![0x01, 0x23, 0x45, 0x67, 0x89], None);
    let flyt = contract.get_flyt(id).unwrap();

    assert_eq!(flyt.from, invoker);
    assert_eq!(flyt.from_nick, "");
    assert_eq!(flyt.to, recipient);
    assert_eq!(flyt.content, vec![0x01, 0x23, 0x45, 0x67, 0x89]);
    assert_eq!(flyt.response, 0);
}

#[test]
fn test_response_flyt() {
    let mut contract = Contract::new();
    let invoker = addr(1);
    let recipient = addr(2);
    let id = contract.send_flyt(invoker.clone(), recipient.clone(), vec![0x01, 0x23, 0x45, 0x67, 0x89], None);

    let res_id = contract.res_flyt(&recipient, id, vec![0x01, 0x23], None).unwrap();

    let flyt = contract.get_flyt(res_id).unwrap();

    assert_eq!(flyt.from_nick, "");
    assert_eq!(flyt.from, recipient);
    assert_eq!(flyt.to, invoker);
    assert_eq!(flyt.content, vec![0x01, 0x23]);
    assert_eq!(flyt.response, id);
}

#[test]
fn walkthrough_post_reply_refuse_like() {
    let (a, b, c) = (addr(0xA), addr(0xB), addr(0xC));
    let mut ledger = Contract::new();
    assert_eq!(ledger.get_count(), 0);

    assert_eq!(ledger.send_flyt(a.clone(), b.clone(), b"hi".to_vec(), None), 1);
    let first = ledger.get_flyt(1).unwrap();
    assert_eq!(first.from, a);
    assert_eq!(first.to, b);
    assert_eq!(first.content, b"hi".to_vec());
    assert_eq!(first.response, 0);

    assert_eq!(ledger.res_flyt(&b, 1, b"hey".to_vec(), None), Ok(2));
    let second = ledger.get_flyt(2).unwrap();
    assert_eq!(second.from, b);
    assert_eq!(second.to, a);
    assert_eq!(second.content, b"hey".to_vec());
    assert_eq!(second.response, 1);

    assert_eq!(ledger.res_flyt(&c, 1, b"x".to_vec(), None), Err(Error::NotAddressee));
    assert_eq!(ledger.get_count(), 2);

    assert_eq!(ledger.send_like(2), Ok(()));
    assert_eq!(ledger.send_like(2), Ok(()));
    assert_eq!(ledger.get_stats(2).unwrap().likes, 2);
    assert_eq!(ledger.get_stats(2).unwrap().tips, 0);
    assert_eq!(ledger.get_stats(1).unwrap().likes, 0);
}

#[test]
fn ids_run_one_by_one_over_posts_and_replies() {
    let (a, b) = (addr(1), addr(2));
    let mut ledger = Contract::new();
    let mut ids = Vec::new();
    ids.push(ledger.send_flyt(a.clone(), b.clone(), vec![1], None));
    ids.push(ledger.res_flyt(&b, 1, vec![2], None).unwrap());
    assert!(ledger.res_flyt(&b, 2, vec![3], None).is_err());
    ids.push(ledger.send_flyt(b.clone(), a.clone(), vec![4], None));
    ids.push(ledger.res_flyt(&a, 2, vec![5], None).unwrap());
    assert_eq!(ids, vec![1, 2, 3, 4]);
    assert_eq!(ledger.get_count(), 4);
    assert_eq!(ledger.next_id(), 5);
}

#[test]
fn get_returns_the_posted_fields_with_nickname() {
    let mut ledger = Contract::new();
    let content = vec![0u8, 255, 10, 13];
    let id = ledger.send_flyt(addr(5), addr(6), content.clone(), Some(String::from("bob")));
    let flyt = ledger.get_flyt(id).unwrap();
    assert_eq!(flyt.from, addr(5));
    assert_eq!(flyt.to, addr(6));
    assert_eq!(flyt.from_nick, "bob");
    assert_eq!(flyt.content, content);
    assert_eq!(flyt.response, 0);
}

#[test]
fn reply_keeps_its_nickname() {
    let mut ledger = Contract::new();
    ledger.send_flyt(addr(1), addr(2), vec![], None);
    let id = ledger.res_flyt(&addr(2), 1, vec![9], Some(String::from("zed"))).unwrap();
    assert_eq!(ledger.get_flyt(id).unwrap().from_nick, "zed");
}

#[test]
fn posting_to_oneself_is_allowed() {
    let mut ledger = Contract::new();
    assert_eq!(ledger.send_flyt(addr(3), addr(3), vec![1], None), 1);
    assert_eq!(ledger.res_flyt(&addr(3), 1, vec![2], None), Ok(2));
}

#[test]
fn likes_count_each_call() {
    let mut ledger = Contract::new();
    ledger.send_flyt(addr(1), addr(2), vec![], None);
    for _ in 0..5 {
        assert_eq!(ledger.send_like(1), Ok(()));
    }
    assert_eq!(ledger.get_stats(1), Ok(FlytStats { likes: 5, tips: 0 }));
}

#[test]
fn like_of_missing_flyt_is_not_found() {
    let mut ledger = Contract::new();
    assert_eq!(ledger.send_like(1), Err(Error::NotFound));
    assert_eq!(ledger.send_like(0), Err(Error::NotFound));
    assert_eq!(ledger.send_like(-1), Err(Error::NotFound));
    assert_eq!(ledger.get_count(), 0);
    assert_eq!(ledger.get_stats(1), Err(Error::NotFound));
}

#[test]
fn stranger_reply_changes_nothing() {
    let mut ledger = Contract::new();
    ledger.send_flyt(addr(1), addr(2), vec![1, 2], None);
    assert_eq!(ledger.res_flyt(&addr(3), 1, vec![3], None), Err(Error::NotAddressee));
    assert_eq!(ledger.res_flyt(&addr(1), 1, vec![3], None), Err(Error::NotAddressee));
    assert_eq!(ledger.get_count(), 1);
    assert_eq!(ledger.get_flyt(2).unwrap_err(), Error::NotFound);
    assert_eq!(ledger.send_flyt(addr(1), addr(2), vec![], None), 2);
}

#[test]
fn reply_to_missing_flyt_is_no_such_message() {
    let mut ledger = Contract::new();
    assert_eq!(ledger.res_flyt(&addr(1), 1, vec![], None), Err(Error::NoSuchMessage));
    ledger.send_flyt(addr(1), addr(2), vec![], None);
    assert_eq!(ledger.res_flyt(&addr(2), 0, vec![], None), Err(Error::NoSuchMessage));
    assert_eq!(ledger.res_flyt(&addr(2), 2, vec![], None), Err(Error::NoSuchMessage));
    assert_eq!(ledger.get_count(), 1);
}

#[test]
fn get_of_missing_flyt_is_not_found() {
    let ledger = Contract::new();
    assert_eq!(ledger.get_flyt(0).unwrap_err(), Error::NotFound);
    assert_eq!(ledger.get_flyt(1).unwrap_err(), Error::NotFound);
    assert_eq!(ledger.next_id(), 1);
}

#[test]
fn new_and_respond_build_zeroed_pairs() {
    let (f, s) = Flyt::new(addr(1), addr(2), vec![4], String::from("n"));
    assert_eq!((f.from, f.to, f.content, f.from_nick, f.response), (addr(1), addr(2), vec![4], String::from("n"), 0));
    assert_eq!(s, FlytStats { likes: 0, tips: 0 });
    let (r, s) = Flyt::respond(addr(2), addr(1), 7, vec![5], String::new());
    assert_eq!((r.from, r.to, r.response), (addr(2), addr(1), 7));
    assert_eq!(s, FlytStats::default());
}

#[test]
fn draft_reply_checks_the_addressee() {
    let (prev, _) = Flyt::new(addr(1), addr(2), vec![], String::new());
    assert_eq!(draft_reply(None, &addr(2), 1, vec![], None).unwrap_err(), Error::NoSuchMessage);
    assert_eq!(draft_reply(Some(&prev), &addr(3), 1, vec![], None).unwrap_err(), Error::NotAddressee);
    let (answer, stats) = draft_reply(Some(&prev), &addr(2), 1, vec![8], None).unwrap();
    assert_eq!(answer.from, addr(2));
    assert_eq!(answer.to, addr(1));
    assert_eq!(answer.response, 1);
    assert_eq!(answer.content, vec![8]);
    assert_eq!(stats, FlytStats::default());
}

#[test]
fn add_like_counts_one() {
    assert_eq!(add_like(None), Err(Error::NotFound));
    assert_eq!(add_like(Some(FlytStats { likes: 4, tips: 9 })), Ok(FlytStats { likes: 5, tips: 9 }));
}

#[test]
fn addresses_compare_by_bytes() {
    assert_eq!(addr(1), addr(1));
    assert_ne!(addr(1), addr(2));
    assert_ne!(Address::new(vec![1]), Address::new(vec![1, 1]));
    assert!(addr(7).same_as(&addr(7).clone()));
}

#[test]
fn host_keys_split_by_sign() {
    assert_eq!(flyt_key(3), Some(3));
    assert_eq!(stats_key(3), Some(-3));
    assert_eq!(flyt_key(0), None);
    assert_eq!(stats_key(0), None);
    assert_eq!(flyt_key(-2), None);
    assert_eq!(stats_key(-2), None);
}
