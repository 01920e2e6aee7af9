use unity_web_server::port::{begin_port_search, port_search_step, PortProbe, PORT_SEARCH_SPAN};

fn run(start: u16, free: &[bool]) -> (PortProbe, Vec<u16>) {
    let mut tried = Vec::new();
    let mut probe = begin_port_search(start);
    loop {
        match probe {
            PortProbe::Try(p) => {
                tried.push(p);
                probe = port_search_step(start, p, free[(p - start) as usize]);
            }
            done => return (done, tried),
        }
    }
}

#[test]
fn requested_port_free() {
    let (r, tried) = run(8080, &[true; 11]);
    assert_eq!(r, PortProbe::Found(8080));
    assert_eq!(tried, vec![8080]);
}

#[test]
fn next_free_port_is_taken() {
    let mut free = [false; 11];
    free[3] = true;
    free[7] = true;
    let (r, tried) = run(8080, &free);
    assert_eq!(r, PortProbe::Found(8083));
    assert_eq!(tried, vec![8080, 8081, 8082, 8083]);
}

#[test]
fn last_port_of_the_range() {
    let mut free = [false; 11];
    free[10] = true;
    assert_eq!(run(8080, &free).0, PortProbe::Found(8090));
}

#[test]
fn no_free_port() {
    let (r, tried) = run(8080, &[false; 11]);
    assert_eq!(r, PortProbe::Exhausted);
    assert_eq!(tried, (8080..=8090).collect::<Vec<u16>>());
}

#[test]
fn search_at_the_top_of_the_port_range() {
    let start = u16::MAX - PORT_SEARCH_SPAN;
    let (r, tried) = run(start, &[false; 11]);
    assert_eq!(r, PortProbe::Exhausted);
    assert_eq!(tried.last(), Some(&u16::MAX));
}

#[test]
fn single_steps() {
    assert_eq!(begin_port_search(3000), PortProbe::Try(3000));
    assert_eq!(port_search_step(3000, 3004, false), PortProbe::Try(3005));
    assert_eq!(port_search_step(3000, 3004, true), PortProbe::Found(3004));
    assert_eq!(port_search_step(3000, 3010, false), PortProbe::Exhausted);
}
