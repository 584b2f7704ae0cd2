use discord_xiv_emotes::commands::global::list_emotes::{
    list_msg_prefix, split_by_max_message_len, MESSAGE_LIMIT,
};

fn reference(prefix: &str, body: &[String]) -> Vec<String> {
    let mut body = body.iter().cloned();
    let mut res = vec![];
    let mut msg = if let Some(item) = body.next() {
        item
    } else {
        return res;
    };
    for item in body {
        msg.push_str(", ");
        if prefix.len() + " (xx/xx): ".len() + msg.len() + item.len() + ", ".len() > 2000 {
            res.push(msg);
            msg = String::new();
        }
        msg.push_str(&item);
    }
    res.push(msg);
    let count = res.len();
    res.iter_mut().enumerate().for_each(|(i, m)| {
        m.insert_str(0, &format!("{} ({}/{}): ", prefix, i + 1, count));
    });
    res
}

#[test]
fn limit_is_two_thousand() {
    assert_eq!(MESSAGE_LIMIT, 2000);
}

#[test]
fn no_items_give_no_message() {
    assert!(split_by_max_message_len("List of emotes", &[]).is_empty());
}

#[test]
fn few_items_give_one_message() {
    let items = vec!["/bow".to_string(), "/wave".to_string(), "/dance".to_string()];
    assert_eq!(
        split_by_max_message_len(list_msg_prefix().en, &items),
        vec!["List of emotes (1/1): /bow, /wave, /dance"]
    );
    assert_eq!(
        split_by_max_message_len(list_msg_prefix().ja, &items[0..1]),
        vec!["エモート一覧 (1/1): /bow"]
    );
}

#[test]
fn many_items_are_split() {
    let items: Vec<String> = (0..600).map(|i| format!("/emote{}", i)).collect();
    let messages = split_by_max_message_len("List of emotes", &items);
    assert_eq!(messages, reference("List of emotes", &items));
    assert!(messages.len() > 1);
    for (i, message) in messages.iter().enumerate() {
        assert!(message.len() <= 2000);
        assert!(message.starts_with(&format!("List of emotes ({}/{}): ", i + 1, messages.len())));
    }
    assert!(messages[0].ends_with(", "));
}

#[test]
fn split_counts_bytes() {
    let items: Vec<String> = (0..400).map(|i| format!("/エモート{}", i)).collect();
    let messages = split_by_max_message_len("エモート一覧", &items);
    assert_eq!(messages, reference("エモート一覧", &items));
    assert!(messages.len() > 2);
}

#[test]
fn split_at_the_limit() {
    // prefix 1 + count 10 + message + item + separator 2 = 2000 still fits, 2001 does not
    let fits = vec!["a".repeat(1000), "b".repeat(985)];
    assert_eq!(split_by_max_message_len("p", &fits).len(), 1);
    assert_eq!(split_by_max_message_len("p", &fits), reference("p", &fits));
    let over = vec!["a".repeat(1000), "b".repeat(986)];
    assert_eq!(split_by_max_message_len("p", &over).len(), 2);
    assert_eq!(split_by_max_message_len("p", &over), reference("p", &over));
}

#[test]
fn oversized_items_get_messages_of_their_own() {
    let items = vec!["a".repeat(3000), "b".to_string(), "c".repeat(2500), "d".to_string()];
    assert_eq!(split_by_max_message_len("p", &items), reference("p", &items));
}
