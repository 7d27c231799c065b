use udisks2::catalog::{Catalog, Domain, Translation};
use udisks2::gettext::{
    arg_replace, build_context_key, is_nul_free, lookup_text, resolve_context, shown_text,
    to_c_style, GETTEXT_PACKAGE,
};
use udisks2::messages::{message_at, Message, MESSAGES_LEN};

fn entry(domain: Domain, context: Option<&str>, msgid: &str, text: &str) -> Translation {
    Translation {
        domain,
        context: context.map(|c| c.to_string()),
        msgid: msgid.to_string(),
        text: text.to_string(),
    }
}

#[test]
fn arguments_take_the_places_of_the_markers_in_turn() {
    assert_eq!(arg_replace("Hello, %s!".to_string(), &["world"]), "Hello, world!");
    assert_eq!(arg_replace("%s (%s)".to_string(), &["a", "b"]), "a (b)");
    assert_eq!(arg_replace("%s".to_string(), &["a", "b"]), "a");
    assert_eq!(arg_replace("%s %s".to_string(), &["a"]), "a %s");
    assert_eq!(arg_replace("none".to_string(), &["a"]), "none");
    assert_eq!(arg_replace("%s %s".to_string(), &[]), "%s %s");
    assert_eq!(arg_replace("%s|%s".to_string(), &["%s", "x"]), "x|%s");
}

#[test]
fn braces_become_percent_s() {
    assert_eq!(to_c_style("Hello, {}!"), "Hello, %s!");
    assert_eq!(to_c_style("{} ({})"), "%s (%s)");
    assert_eq!(to_c_style("{}{}"), "%s%s");
    assert_eq!(to_c_style("{ }"), "{ }");
    assert_eq!(to_c_style("{"), "{");
    assert_eq!(to_c_style(""), "");
    assert_eq!(to_c_style("{{}}"), "{%s}");
    assert_eq!(to_c_style("\u{2014} {}"), "\u{2014} %s");
}

#[test]
fn a_formatted_message_is_asked_for_in_c_style_and_filled() {
    let asked = to_c_style("Hello, {}!");
    assert_eq!(asked, "Hello, %s!");
    assert_eq!(arg_replace(gettextrs::gettext(asked), &["world"]), "Hello, world!");
    let asked = to_c_style("{} and {}");
    assert_eq!(arg_replace(gettextrs::pgettext("ctx", asked), &["a"]), "a and %s");
}

#[test]
fn nul_characters_are_told() {
    assert!(is_nul_free("plain"));
    assert!(is_nul_free(""));
    assert!(!is_nul_free("a\0b"));
    assert!(!is_nul_free("\0"));
    assert!(is_nul_free(&to_c_style("{} ({})")));
    assert!(!is_nul_free(&to_c_style("\0{}")));
}

#[test]
fn a_message_of_the_package_without_translation_stands_for_itself() {
    assert_eq!(GETTEXT_PACKAGE, "udisks2");
    assert_eq!(build_context_key("media-type", "CD-ROM"), "media-type\u{4}CD-ROM");
    assert_eq!(resolve_context("c\u{4}m", "m", "c\u{4}m".to_string()), "m");
    assert_eq!(resolve_context("c\u{4}m", "m", "M".to_string()), "M");
    assert_eq!(resolve_context("c\u{4}m", "m", "m".to_string()), "m");
    let key = build_context_key("media-type", "CD-ROM");
    let found = gettextrs::dgettext(GETTEXT_PACKAGE, key.as_str());
    assert_eq!(resolve_context(&key, "CD-ROM", found), "CD-ROM");
}

#[test]
fn what_is_asked_for_a_message_and_what_the_answer_means() {
    let package = Message { domain: Domain::Package, context: Some("part-type"), msgid: "Linux" };
    assert_eq!(lookup_text(&package), "part-type\u{4}Linux");
    assert_eq!(shown_text(&package, "part-type\u{4}Linux".to_string()), "Linux");
    assert_eq!(shown_text(&package, "Linux-Dateisystem".to_string()), "Linux-Dateisystem");
    for (domain, context) in
        [(Domain::Default, None), (Domain::Default, Some("job")), (Domain::Package, None)]
    {
        let m = Message { domain, context, msgid: "Cleaning Up" };
        assert_eq!(lookup_text(&m), "Cleaning Up");
        assert_eq!(shown_text(&m, "Aufr\u{e4}umen".to_string()), "Aufr\u{e4}umen");
        assert_eq!(shown_text(&m, "job\u{4}Cleaning Up".to_string()), "job\u{4}Cleaning Up");
    }
}

/// Looks a message up as a program does that serves the library.
fn looked_up(m: &Message) -> String {
    let asked = lookup_text(m);
    let found = match (m.domain, m.context) {
        (Domain::Default, Some(context)) => gettextrs::pgettext(context, m.msgid),
        (Domain::Default, None) => gettextrs::gettext(m.msgid),
        (Domain::Package, _) => gettextrs::dgettext(GETTEXT_PACKAGE, asked),
    };
    shown_text(m, found)
}

#[test]
fn a_catalog_has_one_entry_for_each_message_with_the_text_given() {
    let texts: Vec<String> = (0..MESSAGES_LEN).map(|i| format!("#{}", i)).collect();
    let catalog = Catalog::from_texts(&texts);
    assert_eq!(catalog.entries.len(), MESSAGES_LEN);
    for i in 0..MESSAGES_LEN {
        let m = message_at(i);
        let e = &catalog.entries[i];
        assert_eq!(e.domain, m.domain);
        assert_eq!(e.context.as_deref(), m.context);
        assert_eq!(e.msgid, m.msgid);
        assert_eq!(e.text, format!("#{}", i));
        assert_eq!(catalog.lookup(m.domain, m.context, m.msgid), format!("#{}", i));
    }
}

#[test]
fn a_message_without_a_text_is_shown_as_written() {
    let texts = vec!["one".to_string(), "two".to_string()];
    let catalog = Catalog::from_texts(&texts);
    assert_eq!(catalog.entries.len(), MESSAGES_LEN);
    assert_eq!(catalog.entries[0].text, "one");
    assert_eq!(catalog.entries[1].text, "two");
    for i in 2..MESSAGES_LEN {
        assert_eq!(catalog.entries[i].text, message_at(i).msgid);
    }
    let none = Catalog::from_texts(&Vec::new());
    assert_eq!(none.entries[0].text, message_at(0).msgid);
    let mut many: Vec<String> = (0..MESSAGES_LEN + 3).map(|i| i.to_string()).collect();
    many[MESSAGES_LEN - 1] = "last".to_string();
    let catalog = Catalog::from_texts(&many);
    assert_eq!(catalog.entries.len(), MESSAGES_LEN);
    assert_eq!(catalog.entries[MESSAGES_LEN - 1].text, "last");
}

#[test]
fn without_catalogs_on_the_system_every_message_is_shown_as_written() {
    let texts: Vec<String> = (0..MESSAGES_LEN).map(|i| looked_up(&message_at(i))).collect();
    let catalog = Catalog::from_texts(&texts);
    for i in 0..MESSAGES_LEN {
        assert_eq!(catalog.entries[i].text, message_at(i).msgid);
    }
}

#[test]
fn no_message_is_listed_twice() {
    for i in 0..MESSAGES_LEN {
        for j in 0..i {
            let (a, b) = (message_at(i), message_at(j));
            assert!(
                !(a.domain == b.domain && a.context == b.context && a.msgid == b.msgid),
                "{:?}",
                a
            );
        }
    }
}

#[test]
fn a_lookup_takes_the_first_entry_that_matches() {
    let catalog = Catalog {
        entries: vec![
            entry(Domain::Default, Some("a"), "Drive", "Laufwerk"),
            entry(Domain::Default, Some("a"), "Drive", "second"),
            entry(Domain::Default, Some("b"), "Drive", "Antrieb"),
            entry(Domain::Default, None, "Drive", "plain"),
            entry(Domain::Package, Some("a"), "Drive", "package"),
        ],
    };
    assert_eq!(catalog.lookup(Domain::Default, Some("a"), "Drive"), "Laufwerk");
    assert_eq!(catalog.lookup(Domain::Default, Some("b"), "Drive"), "Antrieb");
    assert_eq!(catalog.lookup(Domain::Default, None, "Drive"), "plain");
    assert_eq!(catalog.lookup(Domain::Package, Some("a"), "Drive"), "package");
    assert_eq!(catalog.lookup(Domain::Package, None, "Drive"), "Drive");
    assert_eq!(catalog.lookup(Domain::Default, Some("c"), "Drive"), "Drive");
    assert_eq!(catalog.lookup(Domain::Default, Some("a"), "drive"), "drive");
    assert_eq!(Catalog::untranslated().lookup(Domain::Default, Some("a"), "Drive"), "Drive");
    assert!(Catalog::untranslated().entries.is_empty());
}

#[test]
fn messages_of_the_catalog_are_filled_in() {
    let catalog = Catalog {
        entries: vec![
            entry(Domain::Default, Some("c"), "%s", "<%s>"),
            entry(Domain::Default, Some("c"), "%s %s", "%s+%s"),
        ],
    };
    assert_eq!(catalog.format1("c", "%s", "a"), "<a>");
    assert_eq!(catalog.format1("d", "%s", "a"), "a");
    assert_eq!(catalog.format2("c", "%s %s", "a", "b"), "a+b");
    assert_eq!(catalog.format2("c", "%s (%s)", "a", "b"), "a (b)");
    assert_eq!(catalog.format3("c", "%s %s %s", "a", "b", "c"), "a b c");
    assert_eq!(catalog.format4("c", "%s %s [%s] (%s)", "a", "b", "c", "d"), "a b [c] (d)");
    assert_eq!(catalog.format4("c", "%s %s", "a", "b", "c", "d"), "a+b");
}
