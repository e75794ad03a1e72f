use vulkan_quad::graphics::extensions::Extensions;

fn names(list: &[&str]) -> Vec<String> {
    list.iter().map(|name| String::from(*name)).collect()
}

#[test]
fn nothing_missing_is_success() {
    let wanted = Extensions(["a", "b"]);
    assert_eq!(wanted.are_in(&names(&["b", "c", "a"])), Ok(()));
}

#[test]
fn an_empty_request_is_always_met() {
    let wanted: Extensions<0> = Extensions([]);
    assert_eq!(wanted.are_in(&Vec::new()), Ok(()));
}

#[test]
fn one_missing_name_is_named_alone() {
    let wanted = Extensions(["a", "b", "c"]);
    assert_eq!(wanted.are_in(&names(&["a", "c"])), Err(String::from("b")));
}

#[test]
fn all_missing_names_are_listed_in_order() {
    let wanted = Extensions(["a", "b", "c", "d"]);
    assert_eq!(wanted.are_in(&names(&["c"])), Err(String::from("a, b, d")));
    assert_eq!(wanted.are_in(&Vec::new()), Err(String::from("a, b, c, d")));
}

#[test]
fn the_first_missing_name_is_not_the_only_one_reported() {
    let wanted = Extensions(["VK_KHR_surface", "VK_EXT_debug_utils", "VK_KHR_win32_surface"]);
    let result = wanted.are_in(&names(&["VK_EXT_debug_utils"]));
    assert_eq!(result, Err(String::from("VK_KHR_surface, VK_KHR_win32_surface")));
}

#[test]
fn a_name_asked_for_twice_is_reported_twice() {
    let wanted = Extensions(["a", "a"]);
    assert_eq!(wanted.are_in(&names(&["b"])), Err(String::from("a, a")));
}

#[test]
fn names_must_match_exactly() {
    let wanted = Extensions(["VK_KHR_swapchain"]);
    assert_eq!(
        wanted.are_in(&names(&["VK_KHR_swapchain2", "vk_khr_swapchain"])),
        Err(String::from("VK_KHR_swapchain"))
    );
}
