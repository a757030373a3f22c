//! Well-known service names by port number.

use vstd::prelude::*;

verus! {

/// The service usually found on a port, for the ports the catalog knows.
pub open spec fn service_name(port: u16) -> Option<Seq<char>> {
    if port == 20 { Some("FTP Data"@) }
    else if port == 21 { Some("FTP"@) }
    else if port == 22 { Some("SSH"@) }
    else if port == 23 { Some("Telnet"@) }
    else if port == 25 { Some("SMTP"@) }
    else if port == 53 { Some("DNS"@) }
    else if port == 80 { Some("HTTP"@) }
    else if port == 110 { Some("POP3"@) }
    else if port == 143 { Some("IMAP"@) }
    else if port == 443 { Some("HTTPS"@) }
    else if port == 445 { Some("SMB"@) }
    else if port == 993 { Some("IMAPS"@) }
    else if port == 995 { Some("POP3S"@) }
    else if port == 1433 { Some("MSSQL"@) }
    else if port == 1521 { Some("Oracle"@) }
    else if port == 3306 { Some("MySQL"@) }
    else if port == 3389 { Some("RDP"@) }
    else if port == 5432 { Some("PostgreSQL"@) }
    else if port == 5900 { Some("VNC"@) }
    else if port == 6379 { Some("Redis"@) }
    else if port == 8080 { Some("HTTP Proxy"@) }
    else if port == 8443 { Some("HTTPS Alt"@) }
    else if port == 27017 { Some("MongoDB"@) }
    else { None }
}

/// The service name for a port; `None` means the service is unknown.
pub fn detect_service(port: u16) -> (r: Option<String>)
    ensures
        r matches Some(s) ==> service_name(port) == Some(s@),
        r is None ==> service_name(port) is None,
{
    let name = match port {
        20 => "FTP Data",
        21 => "FTP",
        22 => "SSH",
        23 => "Telnet",
        25 => "SMTP",
        53 => "DNS",
        80 => "HTTP",
        110 => "POP3",
        143 => "IMAP",
        443 => "HTTPS",
        445 => "SMB",
        993 => "IMAPS",
        995 => "POP3S",
        1433 => "MSSQL",
        1521 => "Oracle",
        3306 => "MySQL",
        3389 => "RDP",
        5432 => "PostgreSQL",
        5900 => "VNC",
        6379 => "Redis",
        8080 => "HTTP Proxy",
        8443 => "HTTPS Alt",
        27017 => "MongoDB",
        _ => {
            return None;
        },
    };
    Some(name.to_owned())
}

} // verus!
