use rcon_moderation::inventory::{servers_by_group, servers_of_group};

#[test]
fn servers_are_found_by_their_group() {
    let server_groups = vec![2, 1, 2, 3, 1, 2];
    assert_eq!(servers_of_group(&server_groups, 2), vec![0, 2, 5]);
    assert_eq!(servers_of_group(&server_groups, 1), vec![1, 4]);
    assert_eq!(servers_of_group(&server_groups, 3), vec![3]);
    assert_eq!(servers_of_group(&server_groups, 9), Vec::<usize>::new());
    assert_eq!(servers_of_group(&Vec::new(), 1), Vec::<usize>::new());
}

#[test]
fn every_group_gets_its_servers() {
    let groups = vec![1, 2, 4];
    let server_groups = vec![2, 1, 2, 3, 1];
    assert_eq!(
        servers_by_group(&groups, &server_groups),
        vec![vec![1, 4], vec![0, 2], Vec::<usize>::new()]
    );
    assert_eq!(servers_by_group(&Vec::new(), &server_groups), Vec::<Vec<usize>>::new());
}
