use membrane::{
    membrane_consume_string_utf8, membrane_get_extensions, membrane_init_add_ext, BufferRegistry,
    ExtensionRegistry,
};

fn listed(extensions: &ExtensionRegistry) -> String {
    let mut registry = BufferRegistry::new();
    let handle = membrane_get_extensions(extensions, &mut registry);
    membrane_consume_string_utf8(&mut registry, handle).unwrap()
}

#[test]
fn two_extensions_are_listed_in_order_of_arrival() {
    let mut extensions = ExtensionRegistry::new();
    membrane_init_add_ext(&mut extensions, "a");
    membrane_init_add_ext(&mut extensions, "b");
    let mut registry = BufferRegistry::new();
    let handle = membrane_get_extensions(&extensions, &mut registry);
    assert_eq!(handle, 0);
    assert_eq!(membrane_consume_string_utf8(&mut registry, handle), Ok("a,b,".to_string()));
}

#[test]
fn no_extensions_give_the_empty_string() {
    let extensions = ExtensionRegistry::new();
    assert_eq!(listed(&extensions), "");
}

#[test]
fn an_extension_is_registered_once() {
    let mut extensions = ExtensionRegistry::new();
    membrane_init_add_ext(&mut extensions, "zeta");
    membrane_init_add_ext(&mut extensions, "alpha");
    membrane_init_add_ext(&mut extensions, "zeta");
    membrane_init_add_ext(&mut extensions, "alpha");
    membrane_init_add_ext(&mut extensions, "mid");
    assert_eq!(listed(&extensions), "zeta,alpha,mid,");
}

#[test]
fn names_are_told_apart_exactly() {
    let mut extensions = ExtensionRegistry::new();
    membrane_init_add_ext(&mut extensions, "a");
    membrane_init_add_ext(&mut extensions, "A");
    membrane_init_add_ext(&mut extensions, "");
    membrane_init_add_ext(&mut extensions, "a ");
    membrane_init_add_ext(&mut extensions, "\u{e9}t\u{e9}");
    assert_eq!(listed(&extensions), "a,A,,a ,\u{e9}t\u{e9},");
}

#[test]
fn each_listing_takes_a_new_buffer() {
    let mut extensions = ExtensionRegistry::new();
    membrane_init_add_ext(&mut extensions, "x");
    let mut registry = BufferRegistry::new();
    assert_eq!(membrane_get_extensions(&extensions, &mut registry), 0);
    assert_eq!(membrane_get_extensions(&extensions, &mut registry), 1);
    assert_eq!(membrane_consume_string_utf8(&mut registry, 1), Ok("x,".to_string()));
    assert_eq!(membrane_consume_string_utf8(&mut registry, 0), Ok("x,".to_string()));
}

#[test]
fn a_name_registered_again_later_keeps_its_first_place() {
    let mut extensions = ExtensionRegistry::new();
    for name in ["one", "two", "three", "two", "one", "four", "three"] {
        membrane_init_add_ext(&mut extensions, name);
    }
    assert_eq!(listed(&extensions), "one,two,three,four,");
}
